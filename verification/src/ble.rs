use std::collections::HashSet;

use vstd::prelude::*;

use crate::boat::Boat;

verus! {

/// UUID of the windlink GATT service.
pub const SERVICE: u128 = 0x76e20500_da73_4971_bb03_6105e39db3d6;

/// UUID of the position characteristic.
pub const POSITION: u128 = 0x300b2aec_a094_43fb_98ff_04917cf7a2fb;

/// UUID of the speed characteristic.
pub const SPEED: u128 = 0xd948b9e5_6626_4d41_8967_c4dca26db1fd;

/// Application id under which the GATT server is registered.
pub const APP_ID: u16 = 0;

/// Number of attribute handles reserved for the service.
pub const SERVICE_HANDLES: u16 = 10;

/// Longest value that a characteristic is declared with.
pub const CHARACTERISTIC_MAX_LEN: u16 = 20;

/// A characteristic that the windlink service offers.
#[derive(Debug, Clone, Copy, PartialEq, Eq, Structural)]
pub enum Characteristic {
    Position,
    Speed,
}

/// The attribute handles that the GATT server gave each characteristic.
pub struct HandleTable {
    pub position: u16,
    pub speed: u16,
}

impl HandleTable {
    /// The handle of characteristic `c`.
    pub open spec fn handle(self, c: Characteristic) -> u16 {
        match c {
            Characteristic::Position => self.position,
            Characteristic::Speed => self.speed,
        }
    }

    /// The table with `c` registered under `handle`.
    pub open spec fn with_handle(self, c: Characteristic, handle: u16) -> HandleTable {
        match c {
            Characteristic::Position => HandleTable { position: handle, speed: self.speed },
            Characteristic::Speed => HandleTable { position: self.position, speed: handle },
        }
    }

    /// The characteristic that `handle` names. The position characteristic is
    /// tried first, so it wins when both share a handle.
    pub open spec fn lookup(self, handle: u16) -> Option<Characteristic> {
        if handle == self.position {
            Some(Characteristic::Position)
        } else if handle == self.speed {
            Some(Characteristic::Speed)
        } else {
            None
        }
    }
}

/// The attribute handles of the characteristics, filled in as the GATT server
/// reports each one added. Both start at handle 0.
pub struct CharacteristicHandles {
    position: u16,
    speed: u16,
}

impl View for CharacteristicHandles {
    type V = HandleTable;

    closed spec fn view(&self) -> HandleTable {
        HandleTable { position: self.position, speed: self.speed }
    }
}

impl Default for CharacteristicHandles {
    fn default() -> (h: Self)
        ensures
            h@ == (HandleTable { position: 0, speed: 0 }),
    {
        Self { position: 0, speed: 0 }
    }
}

impl CharacteristicHandles {
    /// Records `attr_handle` as the handle of the characteristic with UUID
    /// `char_uuid`, which must be one that the service registers.
    pub fn init(&mut self, char_uuid: u128, attr_handle: u16)
        requires
            char_uuid == POSITION || char_uuid == SPEED,
        ensures
            char_uuid == POSITION ==> final(self)@ == old(self)@.with_handle(
                Characteristic::Position,
                attr_handle,
            ),
            char_uuid == SPEED ==> final(self)@ == old(self)@.with_handle(
                Characteristic::Speed,
                attr_handle,
            ),
    {
        if char_uuid == POSITION {
            self.position = attr_handle;
        } else {
            self.speed = attr_handle;
        }
    }

    /// The characteristic that the attribute handle `handle` names, if any.
    pub fn characteristic(&self, handle: u16) -> (c: Option<Characteristic>)
        ensures
            c == self@.lookup(handle),
    {
        if handle == self.position {
            Some(Characteristic::Position)
        } else if handle == self.speed {
            Some(Characteristic::Speed)
        } else {
            None
        }
    }
}

/// Once a characteristic is registered under a handle, looking the handle up
/// names it, unless the speed characteristic takes a handle that the position
/// characteristic already holds.
pub proof fn lemma_lookup_after_register(t: HandleTable, c: Characteristic, handle: u16)
    requires
        c == Characteristic::Speed ==> t.position != handle,
    ensures
        t.with_handle(c, handle).lookup(handle) == Some(c),
        t.with_handle(c, handle).handle(c) == handle,
{
}

/// Registering one characteristic leaves the handle of the other unchanged.
pub proof fn lemma_register_keeps_other(t: HandleTable, c: Characteristic, other: Characteristic, handle: u16)
    requires
        c != other,
    ensures
        t.with_handle(c, handle).handle(other) == t.handle(other),
{
}


/// How the firmware declares a characteristic to the GATT server.
#[derive(Debug, Clone, Copy, PartialEq, Eq, Structural)]
pub struct CharacteristicDecl {
    pub uuid: u128,
    /// Clients may read it.
    pub read_permission: bool,
    /// It offers reads.
    pub read_property: bool,
    /// It offers notifications.
    pub notify_property: bool,
    /// Longest value it holds.
    pub max_len: u16,
    /// Reads are answered by the firmware, not by the stack.
    pub answered_by_app: bool,
}

/// The declaration of the characteristic with UUID `uuid`: readable,
/// offering reads and notifications, at most `CHARACTERISTIC_MAX_LEN` bytes,
/// answered by the firmware.
pub open spec fn declaration(uuid: u128) -> CharacteristicDecl {
    CharacteristicDecl {
        uuid,
        read_permission: true,
        read_property: true,
        notify_property: true,
        max_len: CHARACTERISTIC_MAX_LEN,
        answered_by_app: true,
    }
}

/// The characteristics that the service registers, in order.
pub open spec fn registered_characteristics() -> Seq<CharacteristicDecl> {
    seq![declaration(POSITION), declaration(SPEED)]
}

fn declare(uuid: u128) -> (d: CharacteristicDecl)
    ensures
        d == declaration(uuid),
{
    CharacteristicDecl {
        uuid,
        read_permission: true,
        read_property: true,
        notify_property: true,
        max_len: CHARACTERISTIC_MAX_LEN,
        answered_by_app: true,
    }
}

/// An event that the GAP layer reports.
#[derive(Debug, Clone, Copy, PartialEq, Eq, Structural)]
pub enum GapEvent {
    AdvertisingConfigured,
    Other,
}

/// Whether to start advertising after `event`: once the advertising data is
/// configured.
pub fn on_gap_event(event: GapEvent) -> (start_advertising: bool)
    ensures
        start_advertising == (event == GapEvent::AdvertisingConfigured),
{
    match event {
        GapEvent::AdvertisingConfigured => true,
        GapEvent::Other => false,
    }
}

/// An event that the GATT server reports, with the fields that the firmware
/// reads.
#[derive(Debug, Clone, Copy, PartialEq, Eq, Structural)]
pub enum ServerEvent {
    ServiceRegistered { app_id: u16 },
    ServiceCreated { service_handle: u16 },
    CharacteristicAdded { attr_handle: u16, char_uuid: u128 },
    PeerConnected { conn_id: u16 },
    PeerDisconnected { conn_id: u16 },
    Read { conn_id: u16, trans_id: u32, handle: u16 },
    Other,
}

/// What the firmware asks of the GATT server in answer to an event.
#[derive(Debug, Clone, PartialEq, Eq)]
pub enum ServerAction {
    /// Nothing to do.
    Idle,
    /// Create the service `service`, instance `instance`, primary or not, with
    /// `num_handles` handles.
    CreateService { service: u128, instance: u8, primary: bool, num_handles: u16 },
    /// Start the service, then add each characteristic as declared.
    StartService { service_handle: u16, characteristics: Vec<CharacteristicDecl> },
    /// Answer a read with `value`.
    Respond { conn_id: u16, trans_id: u32, handle: u16, value: Vec<u8> },
}

/// The connected clients after `event`: a client is added when it connects and
/// removed when it disconnects; other events leave the set alone.
pub open spec fn next_clients(clients: Set<u16>, event: ServerEvent) -> Set<u16> {
    match event {
        ServerEvent::PeerConnected { conn_id } => clients.insert(conn_id),
        ServerEvent::PeerDisconnected { conn_id } => clients.remove(conn_id),
        _ => clients,
    }
}

/// The client set of a server that started empty and saw `events`, in order.
pub open spec fn clients_after(events: Seq<ServerEvent>) -> Set<u16>
    decreases events.len(),
{
    if events.len() == 0 {
        Set::empty()
    } else {
        next_clients(clients_after(events.drop_last()), events.last())
    }
}

/// Whether the last of `events` that connects or disconnects `conn_id`
/// connects it.
pub open spec fn connected_after(events: Seq<ServerEvent>, conn_id: u16) -> bool
    decreases events.len(),
{
    if events.len() == 0 {
        false
    } else {
        match events.last() {
            ServerEvent::PeerConnected { conn_id: c } if c == conn_id => true,
            ServerEvent::PeerDisconnected { conn_id: c } if c == conn_id => false,
            _ => connected_after(events.drop_last(), conn_id),
        }
    }
}

/// The firmware's side of the GATT server: the characteristic handles and the
/// connected clients.
pub struct GattServer {
    handles: CharacteristicHandles,
    clients: HashSet<u16>,
}

/// The state of the GATT server, as a table of handles and a set of clients.
pub struct ServerModel {
    pub handles: HandleTable,
    pub clients: Set<u16>,
}

impl View for GattServer {
    type V = ServerModel;

    closed spec fn view(&self) -> ServerModel {
        ServerModel { handles: self.handles@, clients: self.clients@ }
    }
}

impl GattServer {
    /// A server with no handles reported and no client connected.
    pub fn new() -> (s: Self)
        ensures
            s@.handles == (HandleTable { position: 0, speed: 0 }),
            s@.clients == Set::<u16>::empty(),
    {
        GattServer { handles: CharacteristicHandles::default(), clients: HashSet::new() }
    }

    /// Updates the state for `event` and returns what to ask of the server.
    /// The boat is read only to answer reads.
    pub fn on_event(&mut self, event: ServerEvent, boat: &Boat) -> (action: ServerAction)
        requires
            event matches ServerEvent::CharacteristicAdded { char_uuid, .. } ==> (char_uuid
                == POSITION || char_uuid == SPEED),
        ensures
            final(self)@.clients == next_clients(old(self)@.clients, event),
            match event {
                ServerEvent::ServiceRegistered { app_id } => {
                    &&& final(self)@ == old(self)@
                    &&& if app_id == APP_ID {
                        action == ServerAction::CreateService {
                            service: SERVICE,
                            instance: 0,
                            primary: true,
                            num_handles: SERVICE_HANDLES,
                        }
                    } else {
                        action == ServerAction::Idle
                    }
                },
                ServerEvent::ServiceCreated { service_handle } => {
                    &&& final(self)@ == old(self)@
                    &&& action matches ServerAction::StartService {
                        service_handle: h,
                        characteristics,
                    }
                    &&& h == service_handle
                    &&& characteristics@ == registered_characteristics()
                },
                ServerEvent::CharacteristicAdded { attr_handle, char_uuid } => {
                    &&& final(self)@.clients == old(self)@.clients
                    &&& char_uuid == POSITION ==> final(self)@.handles == old(
                        self,
                    )@.handles.with_handle(Characteristic::Position, attr_handle)
                    &&& char_uuid == SPEED ==> final(self)@.handles == old(
                        self,
                    )@.handles.with_handle(Characteristic::Speed, attr_handle)
                    &&& action == ServerAction::Idle
                },
                ServerEvent::PeerConnected { conn_id } => {
                    &&& final(self)@.handles == old(self)@.handles
                    &&& final(self)@.clients == old(self)@.clients.insert(conn_id)
                    &&& action == ServerAction::Idle
                },
                ServerEvent::PeerDisconnected { conn_id } => {
                    &&& final(self)@.handles == old(self)@.handles
                    &&& final(self)@.clients == old(self)@.clients.remove(conn_id)
                    &&& action == ServerAction::Idle
                },
                ServerEvent::Read { conn_id, trans_id, handle } => {
                    &&& final(self)@ == old(self)@
                    &&& match old(self)@.handles.lookup(handle) {
                        Some(c) => {
                            &&& action matches ServerAction::Respond {
                                conn_id: rc,
                                trans_id: rt,
                                handle: rh,
                                value,
                            }
                            &&& rc == conn_id
                            &&& rt == trans_id
                            &&& rh == handle
                            &&& value@ == boat.value_of(c)
                        },
                        None => action == ServerAction::Idle,
                    }
                },
                ServerEvent::Other => {
                    &&& final(self)@ == old(self)@
                    &&& action == ServerAction::Idle
                },
            },
    {
        broadcast use vstd::std_specs::hash::group_hash_axioms;

        match event {
            ServerEvent::ServiceRegistered { app_id } => {
                if app_id == APP_ID {
                    ServerAction::CreateService {
                        service: SERVICE,
                        instance: 0,
                        primary: true,
                        num_handles: SERVICE_HANDLES,
                    }
                } else {
                    ServerAction::Idle
                }
            },
            ServerEvent::ServiceCreated { service_handle } => {
                let characteristics = vec![declare(POSITION), declare(SPEED)];
                assert(characteristics@ =~= registered_characteristics());
                ServerAction::StartService { service_handle, characteristics }
            },
            ServerEvent::CharacteristicAdded { attr_handle, char_uuid } => {
                self.handles.init(char_uuid, attr_handle);
                ServerAction::Idle
            },
            ServerEvent::PeerConnected { conn_id } => {
                self.clients.insert(conn_id);
                ServerAction::Idle
            },
            ServerEvent::PeerDisconnected { conn_id } => {
                self.clients.remove(&conn_id);
                ServerAction::Idle
            },
            ServerEvent::Read { conn_id, trans_id, handle } => {
                match self.handles.characteristic(handle) {
                    Some(c) => {
                        let value = boat.characteristic_value(c);
                        ServerAction::Respond { conn_id, trans_id, handle, value }
                    },
                    None => ServerAction::Idle,
                }
            },
            ServerEvent::Other => ServerAction::Idle,
        }
    }
}

/// The client set of a server is exactly the set of clients whose last
/// connection event connected them: starting from `GattServer::new` and
/// applying `on_event` to each event keeps the set equal to `clients_after`,
/// and a client belongs to it if and only if it is `connected_after` them.
pub proof fn lemma_clients_are_connected(events: Seq<ServerEvent>, event: ServerEvent, conn_id: u16)
    ensures
        clients_after(events.push(event)) == next_clients(clients_after(events), event),
        clients_after(events).contains(conn_id) == connected_after(events, conn_id),
    decreases events.len(),
{
    assert(events.push(event).drop_last() =~= events);
    if events.len() > 0 {
        lemma_clients_are_connected(events.drop_last(), events.last(), conn_id);
    }
}

} // verus!
