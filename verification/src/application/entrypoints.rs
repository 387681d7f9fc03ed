use crate::application::delivery::{
    after_grant, enqueue_keeps_waiting_items, DeliveryQueue, GivenItem, PlayerItem, QueueView,
};
use crate::application::detector::{found_locations, scan};
use crate::application::overlay::{
    expired, line_of, line_of_game, rendered, NotificationOverlay, PopupView,
};
use crate::application::{Application, ApplicationView};
use crate::archipelago::api::{
    APError, Connect, ItemHandling, NetworkItem, ServerPayload, GAME_NAME,
};
use crate::archipelago::client::{
    dial_for, APClient, ClientView, ConnectionState, Dial, Due, Frame, Handshake, ReadOutcome,
    Reply,
};
use crate::archipelago::codec::checks_tree;
use crate::lm_structs::items::Item;
use crate::{names_by_id, AppConfig, ArchipelagoPlayer};
use std::collections::HashMap;
use vstd::prelude::*;

verus! {

/// The kind of item that stands for something found for another player.
pub const OTHER_PLAYER_ITEM: i32 = 83;

/// The name that the notification gives to the player `player_id`: the one
/// from the list of players, or `Server` for a player that the list lacks.
pub open spec fn sender_name(players: Seq<ArchipelagoPlayer>, player_id: i64) -> Seq<char> {
    if i32::MIN <= player_id <= i32::MAX && names_by_id(players).contains_key(player_id as i32) {
        names_by_id(players)[player_id as i32]
    } else {
        "Server"@
    }
}

/// The text of the notification for `item`.
pub open spec fn popup_text(item: PlayerItem, players: Seq<ArchipelagoPlayer>) -> Seq<char> {
    if item.for_player {
        "  For Another Player!"@
    } else {
        "  From "@ + sender_name(players, item.player_id) + "!"@
    }
}

/// Writes the text of the notification for `item`.
pub fn write_popup_text(item: PlayerItem, config: &AppConfig) -> (text: String)
    ensures
        text@ == popup_text(item, config.players@),
{
    if item.for_player {
        return String::from_str("  For Another Player!");
    }
    let players = config.players_lookup();
    let mut text = String::from_str("  From ");
    if item.player_id >= i32::MIN as i64 && item.player_id <= i32::MAX as i64 {
        let player_id = item.player_id as i32;
        match players.get(&player_id) {
            Some(name) => {
                text.append(name.as_str());
            },
            None => {
                text.append("Server");
            },
        }
    } else {
        text.append("Server");
    }
    text.append("!");
    text
}

/// Whether `credentials` are those that `config` asks for: the name of the
/// local player, the password, the game, the player's number, and items
/// from other worlds only.
pub open spec fn presents_slot(credentials: Connect, config: AppConfig) -> bool {
    &&& names_by_id(config.players@).contains_key(config.local_player_id)
    &&& credentials.presents(
        config.password@,
        GAME_NAME@,
        names_by_id(config.players@)[config.local_player_id],
        config.local_player_id as i64,
        ItemHandling::OtherWorldsOnly,
        false,
    )
    &&& credentials.tags@.len() == 0
}

/// The credentials that `config` asks for. There are none where the list
/// of players does not name the local player.
pub fn credentials_for(config: &AppConfig) -> (credentials: Option<Connect>)
    ensures
        credentials is Some <==> names_by_id(config.players@).contains_key(config.local_player_id),
        credentials matches Some(c) ==> presents_slot(c, *config),
{
    let players = config.players_lookup();
    match players.get(&config.local_player_id) {
        Some(name) => {
            Some(
                Connect::for_slot(
                    config.password.as_str(),
                    GAME_NAME,
                    name.as_str(),
                    config.local_player_id as i64,
                    ItemHandling::OtherWorldsOnly,
                    Vec::new(),
                    false,
                ),
            )
        },
        None => {
            None
        },
    }
}

/// All the state of the synchronization: the connection, the messages that
/// have come in, the delivery queue, the notification, and the locations
/// that were reported or are on their way.
pub struct SyncEngine {
    pub client: APClient,
    pub queue: DeliveryQueue,
    pub overlay: NotificationOverlay,
    pub inbox: Vec<ServerPayload>,
    pub reported: Vec<i64>,
    pub unconfirmed: Vec<i64>,
    pub config: AppConfig,
    pub popup_id_address: usize,
}

/// The engine as a value.
pub struct EngineView {
    pub client: ClientView,
    pub queue: QueueView,
    pub overlay: Option<PopupView>,
    pub inbox: Seq<ServerPayload>,
    pub reported: Seq<i64>,
    pub unconfirmed: Seq<i64>,
    pub config: AppConfig,
    pub popup_id_address: usize,
}

impl View for SyncEngine {
    type V = EngineView;

    open spec fn view(&self) -> EngineView {
        EngineView {
            client: self.client@,
            queue: self.queue@,
            overlay: self.overlay@,
            inbox: self.inbox@,
            reported: self.reported@,
            unconfirmed: self.unconfirmed@,
            config: self.config,
            popup_id_address: self.popup_id_address,
        }
    }
}

/// The queue once the items of a message have been taken in, in their
/// order: those that the policy admits and whose kind the table describes.
pub open spec fn received(
    queue: QueueView,
    items: Seq<NetworkItem>,
    policy: ItemHandling,
    local_player: i64,
) -> QueueView
    decreases items.len(),
{
    if items.len() == 0 {
        queue
    } else {
        let before = received(queue, items.drop_last(), policy, local_player);
        if policy.admits(items.last().player, local_player) && before.knows(items.last()) {
            before.with_enqueued(items.last())
        } else {
            before
        }
    }
}

/// The items of a message that are given up: those that the policy admits
/// but whose kind the table does not describe.
pub open spec fn left_out(
    queue: QueueView,
    items: Seq<NetworkItem>,
    policy: ItemHandling,
    local_player: i64,
) -> Seq<NetworkItem> {
    items.filter(|item: NetworkItem| policy.admits(item.player, local_player) && !queue.knows(item))
}

/// The engine and the game at one point of a tick.
pub struct Stage {
    pub engine: EngineView,
    pub app: ApplicationView,
}

impl EngineView {
    /// The number of the local player.
    pub open spec fn local_player(self) -> i64 {
        self.config.local_player_id as i64
    }

    /// The policy under which items are taken in.
    pub open spec fn policy(self) -> ItemHandling {
        self.client.credentials.items_handling
    }

    /// Whether a tick has anything to do with the server: the connection
    /// stands.
    pub open spec fn connected(self) -> bool {
        self.client.state is Connected
    }

    /// The items of the message that a tick takes from the inbox.
    pub open spec fn arriving(self) -> Seq<NetworkItem> {
        if self.inbox.len() > 0 && self.inbox[0] is ReceivedItems {
            self.inbox[0]->ReceivedItems_0.items@
        } else {
            Seq::empty()
        }
    }

    /// The engine once a tick has taken at most one message from the inbox.
    pub open spec fn drained(self) -> EngineView {
        if self.inbox.len() == 0 {
            self
        } else {
            EngineView {
                inbox: self.inbox.drop_first(),
                queue: received(self.queue, self.arriving(), self.policy(), self.local_player()),
                ..self
            }
        }
    }

    /// The locations that a scan of `app` finds and that were neither
    /// reported nor are on their way.
    pub open spec fn fresh(self, app: ApplicationView) -> Seq<i64> {
        found_locations(app.global_flags, self.config.item_mapping@).filter(
            |location: i64|
                !self.reported.contains(location) && !self.unconfirmed.contains(location),
        )
    }

    /// Whether a tick in `app` has a report to send: something is fresh,
    /// and the frame that reports it can be written.
    pub open spec fn sends(self, app: ApplicationView) -> bool {
        self.fresh(app).len() > 0 && self.client.framed(checks_tree(self.fresh(app))) is Ok
    }

    /// The engine once a tick has scanned `app`: what it sends is on its
    /// way.
    pub open spec fn checked(self, app: ApplicationView) -> EngineView {
        if self.sends(app) {
            EngineView { unconfirmed: self.unconfirmed + self.fresh(app), ..self }
        } else {
            self
        }
    }

    /// Whether the notification goes up when the game draws its dialog
    /// with the counter under `address`: a grant is in flight, and no token
    /// lives that goes by that counter.
    pub open spec fn shows(self, address: usize) -> bool {
        self.queue.in_flight is Some && !(self.overlay matches Some(token)
            && token.popup_id_address == address)
    }

    /// The engine and the game once the notification for the grant in
    /// flight is up, at the counter under `address`. A token that lived
    /// before gives way, and the line that it kept is kept on.
    pub open spec fn with_notice(self, app: ApplicationView, address: usize) -> Stage
        recommends
            self.queue.in_flight is Some,
    {
        let text = popup_text(self.queue.in_flight->0, self.config.players@);
        Stage {
            engine: EngineView {
                overlay: Some(
                    PopupView {
                        popup_id_address: address,
                        popup_id: app.liveness_at(address),
                        encoded: rendered(text),
                        old_line: line_of_game(self.overlay, app),
                    },
                ),
                ..self
            },
            app: ApplicationView { line: line_of(text), ..app },
        }
    }

    /// The engine and the game once the game has drawn its dialog: the
    /// notification is up if it was due.
    pub open spec fn shown(self, app: ApplicationView, address: usize) -> Stage {
        if self.shows(address) {
            self.with_notice(app, address)
        } else {
            Stage { engine: self, app }
        }
    }

    /// The engine and the game once the notification has been looked
    /// after: where the game has taken the display back, the slot has its
    /// own line again, the token is gone, and with it the grant in flight.
    pub open spec fn looked_after(self, app: ApplicationView) -> Stage {
        if expired(self.overlay, app) {
            Stage {
                engine: EngineView {
                    overlay: None,
                    queue: QueueView { in_flight: None, ..self.queue },
                    ..self
                },
                app: ApplicationView { line: self.overlay->0.old_line, ..app },
            }
        } else {
            Stage { engine: self, app }
        }
    }

    /// The engine once a tick has found it without a connection: an engine
    /// that is disconnected starts an attempt, one that is connecting waits.
    pub open spec fn redialed(self) -> EngineView {
        if self.client.state is Disconnected {
            EngineView {
                client: ClientView {
                    state: ConnectionState::Connecting(Handshake::Secure),
                    pending: Seq::empty(),
                    ..self.client
                },
                ..self
            }
        } else {
            self
        }
    }

    /// The engine and the game after the part of a tick that talks to the
    /// server and grants items.
    pub open spec fn synchronized(self, app: ApplicationView) -> Stage {
        let scanned = self.drained().checked(app);
        let tried = EngineView { queue: scanned.queue.after_attempt(app), ..scanned };
        if scanned.queue.delivers(app) {
            tried.with_notice(after_grant(app, scanned.queue.next()), self.popup_id_address)
        } else {
            Stage { engine: tried, app }
        }
    }

    /// The engine and the game after the first part of a tick. Without a
    /// connection that part only sees to the connection.
    pub open spec fn before_care(self, app: ApplicationView) -> Stage {
        if !self.connected() {
            Stage { engine: self.redialed(), app }
        } else {
            self.synchronized(app)
        }
    }

    /// The engine and the game after a tick: its first part is followed
    /// by a look after the notification, whatever the first part did.
    pub open spec fn after_tick(self, app: ApplicationView) -> Stage {
        let stage = self.before_care(app);
        stage.engine.looked_after(stage.app)
    }
}

/// Whether `location` is among `list`.
fn among(list: &Vec<i64>, location: i64) -> (found: bool)
    ensures
        found == list@.contains(location),
{
    let mut i: usize = 0;
    while i < list.len()
        invariant
            i <= list@.len(),
            forall|j: int| 0 <= j < i ==> list@[j] != location,
        decreases list@.len() - i,
    {
        if list[i] == location {
            return true;
        }
        i += 1;
    }
    false
}

/// Taking items in never changes the table of the item kinds, nor the
/// grant in flight.
pub proof fn received_keeps_table(
    queue: QueueView,
    items: Seq<NetworkItem>,
    policy: ItemHandling,
    local_player: i64,
)
    ensures
        received(queue, items, policy, local_player).items == queue.items,
        received(queue, items, policy, local_player).in_flight == queue.in_flight,
    decreases items.len(),
{
    if items.len() > 0 {
        received_keeps_table(queue, items.drop_last(), policy, local_player);
    }
}

/// Taking the items of a message in loses none of those that waited.
pub proof fn receiving_keeps_waiting_items(
    queue: QueueView,
    items: Seq<NetworkItem>,
    policy: ItemHandling,
    local_player: i64,
)
    ensures
        queue.waiting().subset_of(received(queue, items, policy, local_player).waiting()),
    decreases items.len(),
{
    if items.len() > 0 {
        let before = received(queue, items.drop_last(), policy, local_player);
        receiving_keeps_waiting_items(queue, items.drop_last(), policy, local_player);
        if policy.admits(items.last().player, local_player) && before.knows(items.last()) {
            enqueue_keeps_waiting_items(before, items.last());
        }
    }
}

/// A location that was reported, or that is on its way, is not fresh: no
/// tick sends it again.
pub proof fn reported_is_not_fresh(engine: EngineView, app: ApplicationView, location: i64)
    requires
        engine.reported.contains(location) || engine.unconfirmed.contains(location),
    ensures
        !engine.fresh(app).contains(location),
{
    let found = found_locations(app.global_flags, engine.config.item_mapping@);
    let unknown = |location: i64|
        !engine.reported.contains(location) && !engine.unconfirmed.contains(location);
    if found.filter(unknown).contains(location) {
        let at = choose|at: int|
            0 <= at < found.filter(unknown).len() && found.filter(unknown)[at] == location;
        found.lemma_filter_pred(unknown, at);
    }
}

/// A tick that grants an item leaves the grant in flight: the notification
/// that it puts up expects the counter as it stands, and so outlives the
/// tick.
pub proof fn granting_tick_leaves_grant_in_flight(engine: EngineView, app: ApplicationView)
    requires
        engine.connected(),
        engine.drained().queue.delivers(app),
    ensures
        engine.after_tick(app).engine.queue.in_flight is Some,
        engine.after_tick(app).engine.overlay is Some,
{
}

/// While a grant is in flight no tick grants an item.
pub proof fn no_grant_while_in_flight(engine: EngineView, app: ApplicationView)
    requires
        engine.queue.in_flight is Some,
    ensures
        !engine.drained().queue.delivers(app),
{
    received_keeps_table(engine.queue, engine.arriving(), engine.policy(), engine.local_player());
}

/// What a tick tells the adapter to do, and what it did.
#[derive(Debug)]
pub struct TickReport {
    /// The transport to open.
    pub reconnect: Option<Dial>,
    /// The frame to write: a report of checked locations.
    pub send: Option<String>,
    /// The item that was granted.
    pub delivered: Option<GivenItem>,
    /// The items that were given up because the table does not describe
    /// their kind.
    pub dropped: Vec<NetworkItem>,
    /// Whether the notification came down.
    pub expired: bool,
}

impl SyncEngine {
    /// An engine for the slot that `config` names, with the item kinds of
    /// `items`. There is none where the list of players does not name the
    /// local player.
    pub fn new(config: AppConfig, items: HashMap<u64, Item>) -> (engine: Option<SyncEngine>)
        ensures
            engine is Some <==> names_by_id(config.players@).contains_key(config.local_player_id),
            engine matches Some(e) ==> presents_slot(e.client.credentials, config) && e@ == (
            EngineView {
                client: ClientView {
                    url: config.server_url@,
                    state: ConnectionState::Disconnected,
                    pending: Seq::empty(),
                    credentials: e.client.credentials,
                },
                queue: QueueView { pending: Seq::empty(), in_flight: None, items: items@ },
                overlay: None,
                inbox: Seq::empty(),
                reported: Seq::empty(),
                unconfirmed: Seq::empty(),
                config,
                popup_id_address: 0,
            }),
    {
        let credentials = match credentials_for(&config) {
            Some(credentials) => credentials,
            None => return None,
        };
        let client = APClient::new(config.server_url.as_str(), credentials);
        Some(
            SyncEngine {
                client,
                queue: DeliveryQueue::new(items),
                overlay: NotificationOverlay::new(),
                inbox: Vec::new(),
                reported: Vec::new(),
                unconfirmed: Vec::new(),
                config,
                popup_id_address: 0,
            },
        )
    }

    /// Takes the items of a message into the delivery queue, each after a
    /// look at the policy, and gives back those that had to be given up.
    pub fn receive_items(&mut self, items: &Vec<NetworkItem>) -> (dropped: Vec<NetworkItem>)
        ensures
            final(self)@ == (EngineView {
                queue: received(
                    old(self)@.queue,
                    items@,
                    old(self)@.policy(),
                    old(self)@.local_player(),
                ),
                ..old(self)@
            }),
            dropped@ == left_out(
                old(self)@.queue,
                items@,
                old(self)@.policy(),
                old(self)@.local_player(),
            ),
    {
        let ghost before = self@;
        let ghost gone = |item: NetworkItem|
            before.policy().admits(item.player, before.local_player()) && !before.queue.knows(
                item,
            );
        let policy = self.client.credentials.items_handling;
        let local_player = self.config.local_player_id as i64;
        let mut dropped: Vec<NetworkItem> = Vec::new();
        let mut i: usize = 0;
        while i < items.len()
            invariant
                i <= items@.len(),
                policy == before.policy(),
                local_player == before.local_player(),
                gone == |item: NetworkItem|
                    before.policy().admits(item.player, before.local_player())
                        && !before.queue.knows(item),
                self@ == (EngineView {
                    queue: received(before.queue, items@.take(i as int), policy, local_player),
                    ..before
                }),
                dropped@ == items@.take(i as int).filter(gone),
            decreases items@.len() - i,
        {
            let item = items[i];
            proof {
                reveal(Seq::filter);
                assert(items@.take(i + 1).drop_last() =~= items@.take(i as int));
                received_keeps_table(before.queue, items@.take(i as int), policy, local_player);
            }
            if policy.accepts(item.player, local_player) {
                let queued = self.queue.enqueue(item);
                if !queued {
                    dropped.push(item);
                }
            }
            i += 1;
        }
        assert(items@.take(i as int) =~= items@);
        dropped
    }

    /// Takes at most one message from the inbox. The items that a message
    /// brings go to the delivery queue; a message of another kind is done
    /// with.
    pub fn drain(&mut self) -> (dropped: Vec<NetworkItem>)
        ensures
            final(self)@ == old(self)@.drained(),
            dropped@ == left_out(
                old(self)@.queue,
                old(self)@.arriving(),
                old(self)@.policy(),
                old(self)@.local_player(),
            ),
    {
        let ghost before = self@;
        if self.inbox.len() == 0 {
            let dropped: Vec<NetworkItem> = Vec::new();
            assert(Seq::<NetworkItem>::empty().filter(
                |item: NetworkItem|
                    before.policy().admits(item.player, before.local_player())
                        && !before.queue.knows(item),
            ) =~= Seq::empty()) by {
                reveal(Seq::filter);
            }
            return dropped;
        }
        let message = self.inbox.remove(0);
        match message {
            ServerPayload::ReceivedItems(batch) => self.receive_items(&batch.items),
            _ => {
                let dropped: Vec<NetworkItem> = Vec::new();
                assert(Seq::<NetworkItem>::empty().filter(
                    |item: NetworkItem|
                        before.policy().admits(item.player, before.local_player())
                            && !before.queue.knows(item),
                ) =~= Seq::empty()) by {
                    reveal(Seq::filter);
                }
                dropped
            },
        }
    }

    /// Scans the flags of `app` and gives the frame that reports the
    /// locations that are fresh, if there are any and the frame can be
    /// written. What the frame reports counts as on its way.
    pub fn check_locations(&mut self, app: &Application) -> (send: Option<String>)
        ensures
            final(self)@ == old(self)@.checked(app@),
            send is Some <==> old(self)@.sends(app@),
            send matches Some(text) ==> old(self)@.client.framed(
                checks_tree(old(self)@.fresh(app@)),
            ) == Ok::<Seq<char>, APError>(text@),
    {
        let ghost before = self@;
        let ghost unknown = |location: i64|
            !before.reported.contains(location) && !before.unconfirmed.contains(location);
        let found = scan(app.global_flags.as_slice(), self.config.item_mapping.as_slice());
        let mut fresh: Vec<i64> = Vec::new();
        let mut i: usize = 0;
        while i < found.len()
            invariant
                i <= found@.len(),
                self@ == before,
                unknown == |location: i64|
                    !before.reported.contains(location) && !before.unconfirmed.contains(location),
                fresh@ == found@.take(i as int).filter(unknown),
            decreases found@.len() - i,
        {
            let location = found[i];
            proof {
                reveal(Seq::filter);
                assert(found@.take(i + 1).drop_last() =~= found@.take(i as int));
            }
            if !among(&self.reported, location) && !among(&self.unconfirmed, location) {
                fresh.push(location);
            }
            i += 1;
        }
        assert(found@.take(i as int) =~= found@);
        if fresh.len() == 0 {
            return None;
        }
        let copy = fresh.clone();
        match self.client.location_checks(copy) {
            Ok(text) => {
                self.unconfirmed.append(&mut fresh);
                Some(text)
            },
            Err(_) => None,
        }
    }

    /// Takes note of how the write of a report of locations has ended.
    /// After a write that went through, what was on its way is reported
    /// and will not be sent again. A write that failed ends the connection;
    /// what was on its way is fresh again, so that the next scan finds it.
    pub fn checks_written(&mut self, sent: bool)
        ensures
            sent ==> final(self)@ == (EngineView {
                reported: old(self)@.reported + old(self)@.unconfirmed,
                unconfirmed: Seq::empty(),
                ..old(self)@
            }),
            !sent ==> final(self)@ == (EngineView {
                client: old(self)@.client.dropped(),
                unconfirmed: Seq::empty(),
                ..old(self)@
            }),
    {
        if sent {
            self.reported.append(&mut self.unconfirmed);
        } else {
            let _ = self.client.written(false);
            self.unconfirmed = Vec::new();
        }
    }
}

/// Puts up the notification for `item`, with the counter at
/// `popup_id_address` as the sign that the game still shows it.
fn notify(engine: &mut SyncEngine, app: &mut Application, item: PlayerItem, popup_id_address: usize)
    requires
        old(engine)@.queue.in_flight == Some(item),
    ensures
        final(engine)@ == old(engine)@.with_notice(old(app)@, popup_id_address).engine,
        final(app)@ == old(engine)@.with_notice(old(app)@, popup_id_address).app,
{
    let text = write_popup_text(item, &engine.config);
    engine.overlay.show(app, text, popup_id_address);
}

/// Called when the game draws its item dialog: puts up the notification
/// for the grant in flight, with the counter at `popup_id_address` as the
/// sign that the game still shows it. Nothing happens without a grant in
/// flight, nor while a token lives that goes by that counter.
pub fn popup_dialog_draw_intercept(
    engine: &mut SyncEngine,
    app: &mut Application,
    popup_id_address: usize,
) -> (shown: bool)
    ensures
        shown == old(engine)@.shows(popup_id_address),
        final(engine)@ == old(engine)@.shown(old(app)@, popup_id_address).engine,
        final(app)@ == old(engine)@.shown(old(app)@, popup_id_address).app,
{
    match engine.queue.in_flight {
        Some(item) => {
            let lives = match &engine.overlay.popup {
                Some(token) => token.popup_id_address == popup_id_address,
                None => false,
            };
            if lives {
                return false;
            }
            notify(engine, app, item, popup_id_address);
            true
        },
        None => false,
    }
}

/// Looks after the notification: once the game has taken the display
/// back, the slot gets its own line again, the token is gone, and the
/// grant in flight is over.
pub fn display_item_if_available(engine: &mut SyncEngine, app: &mut Application) -> (gone: bool)
    ensures
        gone == expired(old(engine)@.overlay, old(app)@),
        final(engine)@ == old(engine)@.looked_after(old(app)@).engine,
        final(app)@ == old(engine)@.looked_after(old(app)@).app,
{
    let gone = engine.overlay.tick(app);
    if gone {
        engine.queue.clear_in_flight();
    }
    gone
}

/// Starts an attempt to connect with the credentials of the slot,
/// whatever came of the attempt before.
pub fn reconnect_to_server(engine: &mut SyncEngine) -> (dial: Dial)
    ensures
        final(engine)@ == (EngineView {
            client: ClientView {
                state: ConnectionState::Connecting(Handshake::Secure),
                pending: Seq::empty(),
                ..old(engine)@.client
            },
            ..old(engine)@
        }),
        dial@ == dial_for(old(engine)@.client.url, true),
{
    engine.client.dial()
}

/// One tick of the synchronization, called once for each frame of the game.
///
/// Without a connection the tick starts an attempt to connect, unless one
/// is under way, and leaves the server alone. With a connection it takes at
/// most one message from the inbox, reports the locations that are fresh,
/// and tries to grant the next item, which needs a running game; the
/// notification for a grant goes up at once. In either case the tick then
/// looks after the notification.
pub fn game_loop(engine: &mut SyncEngine, app: &mut Application) -> (report: TickReport)
    ensures
        final(engine)@ == old(engine)@.after_tick(old(app)@).engine,
        final(app)@ == old(engine)@.after_tick(old(app)@).app,
        report.reconnect is Some <==> old(engine)@.client.state is Disconnected,
        report.reconnect matches Some(dial) ==> dial@ == dial_for(old(engine)@.client.url, true),
        report.send is Some <==> old(engine)@.connected() && old(engine)@.drained().sends(
            old(app)@,
        ),
        report.send matches Some(text) ==> old(engine)@.client.framed(
            checks_tree(old(engine)@.drained().fresh(old(app)@)),
        ) == Ok::<Seq<char>, APError>(text@),
        report.delivered is Some <==> old(engine)@.connected() && old(
            engine,
        )@.drained().queue.delivers(old(app)@),
        report.delivered matches Some(given) ==> given == old(engine)@.drained().queue.next().given(),
        old(engine)@.connected() ==> report.dropped@ == left_out(
            old(engine)@.queue,
            old(engine)@.arriving(),
            old(engine)@.policy(),
            old(engine)@.local_player(),
        ),
        !old(engine)@.connected() ==> report.dropped@.len() == 0,
        report.expired == expired(
            old(engine)@.before_care(old(app)@).engine.overlay,
            old(engine)@.before_care(old(app)@).app,
        ),
{
    let ghost before = engine@;
    if !engine.client.state.is_connected() {
        let reconnect = match engine.client.state {
            ConnectionState::Disconnected => Some(reconnect_to_server(engine)),
            _ => None,
        };
        let expired = display_item_if_available(engine, app);
        return TickReport { reconnect, send: None, delivered: None, dropped: Vec::new(), expired };
    }
    let dropped = engine.drain();
    let send = engine.check_locations(app);
    proof {
        received_keeps_table(
            before.queue,
            before.arriving(),
            before.policy(),
            before.local_player(),
        );
    }
    let delivered = engine.queue.try_deliver_next(app);
    if delivered.is_some() {
        match engine.queue.in_flight {
            Some(item) => notify(engine, app, item, engine.popup_id_address),
            None => {},
        }
    }
    let expired = display_item_if_available(engine, app);
    TickReport { reconnect: None, send, delivered, dropped, expired }
}

/// What a poll of the transport has led to: what goes back to the server,
/// and the fault to report, if there was one.
#[derive(Debug)]
pub struct ServerUpdate {
    pub reply: Reply,
    pub fault: Option<APError>,
}

/// Takes in what one poll of the transport has brought. A message that
/// the client hands on joins the inbox, where the next tick finds it.
pub fn get_updates_from_server(engine: &mut SyncEngine, frame: Frame) -> (update: ServerUpdate)
    ensures
        final(engine)@ == (EngineView {
            client: old(engine)@.client.after_read(frame@),
            inbox: final(engine)@.inbox,
            ..old(engine)@
        }),
        update.reply@ == old(engine)@.client.reply(frame@),
        match old(engine)@.client.due(frame@) {
            Due::NoMessage => update.fault is None && final(engine)@.inbox == old(engine)@.inbox,
            Due::Error(fault) => update.fault == Some(fault) && final(engine)@.inbox == old(
                engine,
            )@.inbox,
            Due::Message(tree) => {
                &&& update.fault is None
                &&& final(engine)@.inbox.len() == old(engine)@.inbox.len() + 1
                &&& final(engine)@.inbox.drop_last() == old(engine)@.inbox
                &&& final(engine)@.inbox.last().read_from(tree)
            },
        },
{
    let reading = engine.client.read(frame);
    match reading.outcome {
        ReadOutcome::NoMessage => ServerUpdate { reply: reading.reply, fault: None },
        ReadOutcome::Error(fault) => ServerUpdate { reply: reading.reply, fault: Some(fault) },
        ReadOutcome::Message(payload) => {
            engine.inbox.push(payload);
            ServerUpdate { reply: reading.reply, fault: None }
        },
    }
}

/// Takes note of an item symbol that the player has touched: `item_id` is
/// its kind, and `hit_data` is positive once the player has it. The kind
/// that stands for another player's item is kept from the game's own
/// handling, which the result tells; once the player has it, the grant is
/// in flight for the other player and the item dialog opens.
pub fn item_symbol_back_intercept(
    engine: &mut SyncEngine,
    app: &mut Application,
    item_id: i32,
    hit_data: i32,
) -> (suppress: bool)
    ensures
        suppress == (item_id == OTHER_PLAYER_ITEM),
        hit_data > 0 && item_id == OTHER_PLAYER_ITEM ==> final(engine)@ == (EngineView {
            queue: QueueView {
                in_flight: Some(PlayerItem { player_id: 0, for_player: true }),
                ..old(engine)@.queue
            },
            ..old(engine)@
        }) && final(app)@ == old(app)@.with_dialog_popup(83),
        !(hit_data > 0 && item_id == OTHER_PLAYER_ITEM) ==> final(engine)@ == old(engine)@
            && final(app)@ == old(app)@,
{
    let acquired = hit_data > 0;
    let for_other_player = item_id == OTHER_PLAYER_ITEM;
    if acquired && for_other_player {
        engine.queue.in_flight = Some(PlayerItem { player_id: 0, for_player: true });
        app.create_dialog_popup(83);
    }
    for_other_player
}

} // verus!
