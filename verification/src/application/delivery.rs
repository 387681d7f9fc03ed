use crate::application::{Application, ApplicationView, RoomKey};
use crate::archipelago::api::NetworkItem;
use crate::lm_structs::items::{Guard, Item};
use std::collections::HashMap;
use vstd::multiset::Multiset;
use vstd::prelude::*;

verus! {

/// The grant that is on its way to the screen: the other player it concerns,
/// and whether the item went to that player (`true`) or came from that
/// player (`false`).
#[derive(Debug, Clone, Copy, PartialEq, Eq, Structural)]
pub struct PlayerItem {
    pub player_id: i64,
    pub for_player: bool,
}

/// An item that was granted: the player that found it, and the kind of
/// item of the game that it is.
#[derive(Debug, Clone, Copy, PartialEq, Eq, Structural)]
pub struct GivenItem {
    pub player_id: i64,
    pub item_id: u32,
}

/// An item of another player that waits to be granted, with what the item
/// table says of its kind and the rooms in which a grant was tried.
#[derive(Debug)]
pub struct PendingDelivery {
    pub item: NetworkItem,
    pub item_id: u32,
    pub flag: usize,
    pub value: u8,
    pub guard: Guard,
    pub rooms_seen: Vec<RoomKey>,
}

/// A pending delivery as a value: the rooms form a set.
pub struct PendingView {
    pub item: NetworkItem,
    pub item_id: u32,
    pub flag: usize,
    pub value: u8,
    pub guard: Guard,
    pub rooms_seen: Set<RoomKey>,
}

impl View for PendingDelivery {
    type V = PendingView;

    open spec fn view(&self) -> PendingView {
        PendingView {
            item: self.item,
            item_id: self.item_id,
            flag: self.flag,
            value: self.value,
            guard: self.guard,
            rooms_seen: self.rooms_seen@.to_set(),
        }
    }
}

impl PendingView {
    /// A delivery of `item` of the kind that `kind` describes, not yet tried
    /// in any room.
    pub open spec fn fresh(item: NetworkItem, kind: Item) -> PendingView {
        PendingView {
            item,
            item_id: kind.item_id as u32,
            flag: kind.flag,
            value: kind.value,
            guard: kind.guard,
            rooms_seen: Set::empty(),
        }
    }

    /// What a grant of this delivery gives.
    pub open spec fn given(self) -> GivenItem {
        GivenItem { player_id: self.item.player, item_id: self.item_id }
    }

    /// The same delivery once a grant has been tried in `room`.
    pub open spec fn tried_in(self, room: RoomKey) -> PendingView {
        PendingView { rooms_seen: self.rooms_seen.insert(room), ..self }
    }

    /// Whether the guard of the item's kind lets it be granted in `app`.
    pub open spec fn guard_open(self, app: ApplicationView) -> bool {
        match self.guard {
            Guard::Consumable => true,
            Guard::OwnedOnceFlag => app.flag_at(self.flag as int) == 0,
            Guard::OwnedOnceInventory => app.inventory_at(self.item_id as int) == 0,
        }
    }
}

/// The remote items that wait to be granted, oldest first, the grant that
/// is on its way to the screen, if any, and the table of the item kinds.
///
/// The order of the grants is relaxed on purpose: the item received last is
/// tried first, and an item that cannot be granted yet goes to the far end.
/// The game does not care in which order its items arrive; what matters is
/// that none is lost and that no two grants overlap.
pub struct DeliveryQueue {
    pub pending: Vec<PendingDelivery>,
    pub in_flight: Option<PlayerItem>,
    pub items: HashMap<u64, Item>,
}

/// A delivery queue as a value.
pub struct QueueView {
    pub pending: Seq<PendingView>,
    pub in_flight: Option<PlayerItem>,
    pub items: Map<u64, Item>,
}

impl View for DeliveryQueue {
    type V = QueueView;

    open spec fn view(&self) -> QueueView {
        QueueView {
            pending: self.pending@.map_values(|p: PendingDelivery| p@),
            in_flight: self.in_flight,
            items: self.items@,
        }
    }
}

/// The game after a grant of `next`: the item-get sequence is started and
/// the item's flag byte holds the item's value.
pub open spec fn after_grant(app: ApplicationView, next: PendingView) -> ApplicationView {
    app.with_item_given(next.item_id).with_flag(next.flag as int, next.value)
}

impl QueueView {
    /// Whether the table describes the kind of `item`.
    pub open spec fn knows(self, item: NetworkItem) -> bool {
        &&& item.item >= 0
        &&& self.items.contains_key(item.item as u64)
        &&& self.items[item.item as u64].item_id <= u32::MAX
    }

    /// The queue with `item` added as the one received last.
    pub open spec fn with_enqueued(self, item: NetworkItem) -> QueueView
        recommends
            self.knows(item),
    {
        QueueView {
            pending: self.pending.push(PendingView::fresh(item, self.items[item.item as u64])),
            ..self
        }
    }

    /// The delivery that the next attempt takes up: the one received last.
    pub open spec fn next(self) -> PendingView
        recommends
            self.pending.len() > 0,
    {
        self.pending.last()
    }

    /// Whether an attempt in `app` takes up a delivery at all: the game is
    /// running, no grant is in flight, and something waits.
    pub open spec fn attempts(self, app: ApplicationView) -> bool {
        app.game_init != 0 && self.in_flight is None && self.pending.len() > 0
    }

    /// Whether an attempt in `app` grants the next delivery: it is taken up,
    /// it was not tried in the current room before, and its guard is open.
    pub open spec fn delivers(self, app: ApplicationView) -> bool {
        &&& self.attempts(app)
        &&& !self.next().rooms_seen.contains(app.room)
        &&& self.next().guard_open(app)
    }

    /// The queue after an attempt in `app`. A granted delivery leaves the
    /// queue and is in flight. One that was tried in the current room before
    /// goes back unchanged, and one whose guard is closed goes back marked
    /// with the current room; either goes to the far end of the queue, so
    /// that the others get their turn before it is tried again.
    pub open spec fn after_attempt(self, app: ApplicationView) -> QueueView {
        if !self.attempts(app) {
            self
        } else if self.delivers(app) {
            QueueView {
                pending: self.pending.drop_last(),
                in_flight: Some(PlayerItem { player_id: self.next().item.player, for_player: false }),
                ..self
            }
        } else {
            QueueView {
                pending: seq![self.next().tried_in(app.room)] + self.pending.drop_last(),
                ..self
            }
        }
    }

    /// The items that wait, without regard to their order or to the rooms
    /// in which they were tried.
    pub open spec fn waiting(self) -> Multiset<NetworkItem> {
        self.pending.map_values(|p: PendingView| p.item).to_multiset()
    }

    /// The queue after one attempt in each of `games`, in order.
    pub open spec fn after_attempts(self, games: Seq<ApplicationView>) -> QueueView
        decreases games.len(),
    {
        if games.len() == 0 {
            self
        } else {
            self.after_attempt(games[0]).after_attempts(games.drop_first())
        }
    }

    /// How many of the attempts in `games`, made in order, grant an item.
    pub open spec fn deliveries(self, games: Seq<ApplicationView>) -> nat
        decreases games.len(),
    {
        if games.len() == 0 {
            0
        } else {
            let rest = self.after_attempt(games[0]).deliveries(games.drop_first());
            if self.delivers(games[0]) {
                rest + 1
            } else {
                rest
            }
        }
    }
}

/// Whether `room` is among `rooms`.
fn seen(rooms: &Vec<RoomKey>, room: RoomKey) -> (found: bool)
    ensures
        found == rooms@.to_set().contains(room),
{
    let mut i: usize = 0;
    while i < rooms.len()
        invariant
            i <= rooms@.len(),
            forall|j: int| 0 <= j < i ==> rooms@[j] != room,
        decreases rooms@.len() - i,
    {
        if rooms[i] == room {
            return true;
        }
        i += 1;
    }
    false
}

impl DeliveryQueue {
    /// An empty queue over the item kinds of `items`.
    pub fn new(items: HashMap<u64, Item>) -> (queue: DeliveryQueue)
        ensures
            queue@ == (QueueView { pending: Seq::empty(), in_flight: None, items: items@ }),
    {
        let queue = DeliveryQueue { pending: Vec::new(), in_flight: None, items };
        assert(queue@.pending =~= Seq::empty());
        queue
    }

    /// Takes `item` into the queue. An item whose kind the table does not
    /// describe cannot be granted: it is left out, and the result says so.
    pub fn enqueue(&mut self, item: NetworkItem) -> (queued: bool)
        ensures
            queued == old(self)@.knows(item),
            queued ==> final(self)@ == old(self)@.with_enqueued(item),
            !queued ==> final(self)@ == old(self)@,
    {
        if item.item < 0 {
            return false;
        }
        let key = item.item as u64;
        let ghost before = self@;
        match self.items.get(&key) {
            Some(kind) => {
                if kind.item_id > u32::MAX as usize {
                    return false;
                }
                let fresh = PendingDelivery {
                    item,
                    item_id: kind.item_id as u32,
                    flag: kind.flag,
                    value: kind.value,
                    guard: kind.guard,
                    rooms_seen: Vec::new(),
                };
                assert(fresh@.rooms_seen =~= Set::empty());
                self.pending.push(fresh);
                assert(self@.pending =~= before.pending.push(PendingView::fresh(item, *kind)));
                true
            },
            None => false,
        }
    }

    /// Tries to grant the item received last.
    ///
    /// Nothing happens while the game is not running, while a grant is in
    /// flight, or while nothing waits. Otherwise the item is granted if it
    /// was not tried in the current room before and its guard is open: the
    /// item-get sequence starts, the item's flag byte takes the item's value,
    /// the grant is in flight, and the item has left the queue. An item that
    /// is not granted stays in the queue.
    pub fn try_deliver_next(&mut self, app: &mut Application) -> (delivered: Option<GivenItem>)
        ensures
            final(self)@ == old(self)@.after_attempt(old(app)@),
            delivered is Some <==> old(self)@.delivers(old(app)@),
            delivered matches Some(given) ==> given == old(self)@.next().given() && final(app)@
                == after_grant(old(app)@, old(self)@.next()),
            delivered is None ==> final(app)@ == old(app)@,
    {
        let ghost before = self@;
        if app.game_init == 0 || self.in_flight.is_some() || self.pending.len() == 0 {
            return None;
        }
        let mut next = self.pending.pop().unwrap();
        let ghost taken = next@;
        assert(self@.pending =~= before.pending.drop_last());
        let room = app.current_room();
        if seen(&next.rooms_seen, room) {
            assert(taken.tried_in(room).rooms_seen =~= taken.rooms_seen);
            self.pending.insert(0, next);
            assert(self@.pending =~= seq![taken.tried_in(room)] + before.pending.drop_last());
            return None;
        }
        let ghost taken_rooms = next.rooms_seen@;
        next.rooms_seen.push(room);
        proof {
            taken_rooms.lemma_push_to_set_commute(room);
        }
        let open = match next.guard {
            Guard::Consumable => true,
            Guard::OwnedOnceFlag => app.read_flag_byte(next.flag) == 0,
            Guard::OwnedOnceInventory => app.read_inventory_slot(next.item_id as usize) == 0,
        };
        if open {
            app.trigger_grant_effect(next.item_id);
            app.write_flag_byte(next.flag, next.value);
            self.in_flight = Some(PlayerItem { player_id: next.item.player, for_player: false });
            Some(GivenItem { player_id: next.item.player, item_id: next.item_id })
        } else {
            self.pending.insert(0, next);
            assert(self@.pending =~= seq![taken.tried_in(room)] + before.pending.drop_last());
            None
        }
    }

    /// Ends the grant that is in flight, so that the next item can follow.
    pub fn clear_in_flight(&mut self)
        ensures
            final(self)@ == (QueueView { in_flight: None, ..old(self)@ }),
    {
        self.in_flight = None;
    }
}

/// While a grant is in flight no attempt grants anything, and none changes
/// the queue.
pub proof fn in_flight_blocks_delivery(queue: QueueView, games: Seq<ApplicationView>)
    requires
        queue.in_flight is Some,
    ensures
        queue.deliveries(games) == 0,
        queue.after_attempts(games) == queue,
    decreases games.len(),
{
    if games.len() > 0 {
        in_flight_blocks_delivery(queue, games.drop_first());
    }
}

/// However many attempts follow one another, at most one of them grants an
/// item as long as nothing ends the grant in flight in between.
pub proof fn at_most_one_delivery(queue: QueueView, games: Seq<ApplicationView>)
    ensures
        queue.deliveries(games) <= 1,
    decreases games.len(),
{
    if games.len() > 0 {
        if queue.delivers(games[0]) {
            in_flight_blocks_delivery(queue.after_attempt(games[0]), games.drop_first());
        } else {
            at_most_one_delivery(queue.after_attempt(games[0]), games.drop_first());
        }
    }
}

/// An attempt never loses an item: what waits afterwards is what waited
/// before, less the one item that was granted, if one was.
pub proof fn attempt_keeps_waiting_items(queue: QueueView, app: ApplicationView)
    ensures
        queue.delivers(app) ==> queue.after_attempt(app).waiting().insert(queue.next().item)
            == queue.waiting(),
        !queue.delivers(app) ==> queue.after_attempt(app).waiting() == queue.waiting(),
{
    broadcast use vstd::seq_lib::group_to_multiset_ensures;

    let item_of = |p: PendingView| p.item;
    if queue.attempts(app) {
        let rest = queue.pending.drop_last();
        let next = queue.next();
        assert(queue.pending.map_values(item_of) =~= rest.map_values(item_of).push(next.item));
        if queue.delivers(app) {
        } else {
            let back = seq![next.tried_in(app.room)] + rest;
            assert(back.map_values(item_of) =~= rest.map_values(item_of).insert(0, next.item));
        }
    }
}

/// Taking an item in loses none: what waited before still waits, and the
/// item waits with it.
pub proof fn enqueue_keeps_waiting_items(queue: QueueView, item: NetworkItem)
    ensures
        queue.with_enqueued(item).waiting() == queue.waiting().insert(item),
{
    broadcast use vstd::seq_lib::group_to_multiset_ensures;

    let item_of = |p: PendingView| p.item;
    let fresh = PendingView::fresh(item, queue.items[item.item as u64]);
    assert(queue.pending.push(fresh).map_values(item_of) =~= queue.pending.map_values(
        item_of,
    ).push(item));
}

} // verus!
