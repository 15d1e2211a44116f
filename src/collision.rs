use vstd::prelude::*;

verus! {

/// The identifier of the player's sprite.
pub open spec fn player_label() -> Seq<char> {
    "player"@
}

/// A notification from the engine that two sprites started or stopped touching.
pub struct CollisionEvent {
    pub first: String,
    pub second: String,
    /// True when the contact begins, false when it ends.
    pub begins: bool,
}

/// Whether the event is the start of a contact in which one side is the player.
pub open spec fn is_player_hit(e: CollisionEvent) -> bool {
    e.begins && (e.first@ == player_label() || e.second@ == player_label())
}

/// How many of the events are starts of contacts with the player.
pub open spec fn hit_count(events: Seq<CollisionEvent>) -> nat
    decreases events.len(),
{
    if events.len() == 0 {
        0
    } else {
        hit_count(events.drop_last()) + if is_player_hit(events.last()) { 1nat } else { 0nat }
    }
}

/// The sprites that one event removes: for a hit on the player, each
/// participant that is not the player itself, in the order named.
pub open spec fn hit_removals(e: CollisionEvent) -> Seq<Seq<char>> {
    if is_player_hit(e) {
        (if e.first@ != player_label() { seq![e.first@] } else { Seq::empty() })
            + (if e.second@ != player_label() { seq![e.second@] } else { Seq::empty() })
    } else {
        Seq::empty()
    }
}

/// The sprites that a sequence of events removes, in order.
pub open spec fn removals(events: Seq<CollisionEvent>) -> Seq<Seq<char>>
    decreases events.len(),
{
    if events.len() == 0 {
        Seq::empty()
    } else {
        removals(events.drop_last()) + hit_removals(events.last())
    }
}

/// The views of a list of sprite identifiers.
pub open spec fn labels(v: Seq<String>) -> Seq<Seq<char>> {
    v.map_values(|s: String| s@)
}

/// Hits are counted event by event: the count over two batches of
/// collisions, one after the other, is the sum of their counts.
pub proof fn lemma_hit_count_append(a: Seq<CollisionEvent>, b: Seq<CollisionEvent>)
    ensures
        hit_count(a + b) == hit_count(a) + hit_count(b),
    decreases b.len(),
{
    if b.len() == 0 {
        assert(a + b =~= a);
    } else {
        assert((a + b).drop_last() =~= a + b.drop_last());
        assert((a + b).last() == b.last());
        lemma_hit_count_append(a, b.drop_last());
    }
}

/// A prefix of a sequence of events holds no more hits than the whole.
pub proof fn lemma_hit_count_prefix(events: Seq<CollisionEvent>, n: int)
    requires
        0 <= n <= events.len(),
    ensures
        hit_count(events.take(n)) <= hit_count(events),
{
    assert(events.take(n) + events.skip(n) =~= events);
    lemma_hit_count_append(events.take(n), events.skip(n));
}

/// How many of the events are starts of contacts with the player.
pub fn count_hits(events: &Vec<CollisionEvent>) -> (r: usize)
    ensures
        r == hit_count(events@),
{
    let mut n: usize = 0;
    let mut i: usize = 0;
    while i < events.len()
        invariant
            i <= events@.len(),
            n == hit_count(events@.take(i as int)),
            n <= i,
        decreases events@.len() - i,
    {
        assert(events@.take(i + 1).drop_last() =~= events@.take(i as int));
        assert(events@.take(i + 1).last() == events@[i as int]);
        if events[i].hits_player() {
            n = n + 1;
        }
        i = i + 1;
    }
    assert(events@.take(events@.len() as int) =~= events@);
    n
}

impl CollisionEvent {
    /// Whether this event is the start of a contact in which one side is the player.
    pub fn hits_player(&self) -> (r: bool)
        ensures
            r == is_player_hit(*self),
    {
        let player = String::from_str("player");
        self.begins && (self.first.eq(&player) || self.second.eq(&player))
    }

    /// Appends to `removed` the sprites that this event removes.
    pub fn collect_removals(&self, removed: &mut Vec<String>)
        ensures
            labels(final(removed)@) == labels(old(removed)@) + hit_removals(*self),
    {
        if self.hits_player() {
            let player = String::from_str("player");
            if !self.first.eq(&player) {
                removed.push(self.first.clone());
            }
            if !self.second.eq(&player) {
                removed.push(self.second.clone());
            }
        }
        assert(labels(final(removed)@) =~= labels(old(removed)@) + hit_removals(*self));
    }
}

} // verus!
