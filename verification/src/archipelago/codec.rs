use crate::archipelago::api::{
    APError, Bounce, ClientPayload, Connect, ConnectUpdate, CreateHints, DataStorageOperation, Get,
    GetDataPackage, LocationChecks, LocationScouts, NetworkVersion, Say, SetData, SetNotify,
    StatusUpdate, Sync, UpdateHint,
};
use crate::archipelago::json::{texts, to_text, written, JsonField, JsonValue, JsonView};
use vstd::prelude::*;

verus! {

/// An array of the strings of `list`.
pub open spec fn text_list(list: Seq<String>) -> JsonView {
    JsonView::List(texts(list).map_values(|s: Seq<char>| JsonView::Text(s)))
}

/// An array of the integers of `list`.
pub open spec fn int_list(list: Seq<i64>) -> JsonView {
    JsonView::List(list.map_values(|n: i64| JsonView::Int(n)))
}

/// An object with one string member for each pair of `pairs`.
pub open spec fn text_map(pairs: Seq<(String, String)>) -> JsonView {
    JsonView::Object(pairs.map_values(|p: (String, String)| (p.0@, JsonView::Text(p.1@))))
}

/// An object that holds `fields`, in their order.
pub fn object(fields: Vec<JsonField>) -> (value: JsonValue)
    ensures
        value@ == JsonView::Object(fields@.map_values(|f: JsonField| (f.name@, f.value@))),
{
    let value = JsonValue::Object(fields);
    assert(value@->Object_0 =~= fields@.map_values(|f: JsonField| (f.name@, f.value@)));
    value
}

/// An array that holds `items`, in their order.
pub fn list(items: Vec<JsonValue>) -> (value: JsonValue)
    ensures
        value@ == JsonView::List(items@.map_values(|v: JsonValue| v@)),
{
    let value = JsonValue::List(items);
    assert(value@->List_0 =~= items@.map_values(|v: JsonValue| v@));
    value
}

/// An object with one string member for each pair of `pairs`.
pub fn string_map(pairs: &Vec<(String, String)>) -> (value: JsonValue)
    ensures
        value@ == text_map(pairs@),
{
    let mut fields: Vec<JsonField> = Vec::new();
    let mut i: usize = 0;
    while i < pairs.len()
        invariant
            i <= pairs@.len(),
            fields@.len() == i,
            forall|j: int|
                0 <= j < i ==> (#[trigger] fields@[j]).name@ == pairs@[j].0@ && fields@[j].value@
                    == JsonView::Text(pairs@[j].1@),
        decreases pairs@.len() - i,
    {
        let name = pairs[i].0.clone();
        let text = pairs[i].1.clone();
        fields.push(JsonField { name, value: JsonValue::Text(text) });
        i += 1;
    }
    let value = object(fields);
    assert(value@->Object_0 =~= pairs@.map_values(
        |p: (String, String)| (p.0@, JsonView::Text(p.1@)),
    ));
    value
}

impl NetworkVersion {
    /// The object that stands for the value on the wire.
    pub open spec fn tree(self) -> JsonView {
        JsonView::Object(
            seq![
                ("class"@, JsonView::Text(self.class@)),
                ("build"@, JsonView::Int(self.build)),
                ("major"@, JsonView::Int(self.major)),
                ("minor"@, JsonView::Int(self.minor)),
            ],
        )
    }

    /// Builds the object that stands for the value on the wire.
    pub fn to_json(&self) -> (json: JsonValue)
        ensures
            json@ == self.tree(),
    {
        let mut fields: Vec<JsonField> = Vec::new();
        fields.push(JsonValue::member("class", JsonValue::Text(self.class.clone())));
        fields.push(JsonValue::member("build", JsonValue::Int(self.build)));
        fields.push(JsonValue::member("major", JsonValue::Int(self.major)));
        fields.push(JsonValue::member("minor", JsonValue::Int(self.minor)));
        let json = object(fields);
        assert(json@->Object_0 =~= self.tree()->Object_0);
        json
    }
}

impl Connect {
    /// The object that stands for the value on the wire.
    pub open spec fn tree(self) -> JsonView {
        JsonView::Object(
            seq![
                ("cmd"@, JsonView::Text("Connect"@)),
                ("password"@, JsonView::Text(self.password@)),
                ("game"@, JsonView::Text(self.game@)),
                ("name"@, JsonView::Text(self.name@)),
                ("uuid"@, JsonView::Int(self.uuid)),
                ("version"@, self.version.tree()),
                ("items_handling"@, JsonView::Int(self.items_handling.code_of() as i64)),
                ("tags"@, text_list(self.tags@)),
                ("slot_data"@, JsonView::Bool(self.slot_data)),
            ],
        )
    }

    /// Builds the object that stands for the value on the wire.
    pub fn to_json(&self) -> (json: JsonValue)
        ensures
            json@ == self.tree(),
    {
        let mut fields: Vec<JsonField> = Vec::new();
        fields.push(JsonValue::member("cmd", JsonValue::text("Connect")));
        fields.push(JsonValue::member("password", JsonValue::Text(self.password.clone())));
        fields.push(JsonValue::member("game", JsonValue::Text(self.game.clone())));
        fields.push(JsonValue::member("name", JsonValue::Text(self.name.clone())));
        fields.push(JsonValue::member("uuid", JsonValue::Int(self.uuid)));
        fields.push(JsonValue::member("version", self.version.to_json()));
        fields.push(
            JsonValue::member("items_handling", JsonValue::Int(self.items_handling.code() as i64)),
        );
        fields.push(JsonValue::member("tags", JsonValue::strings(&self.tags)));
        fields.push(JsonValue::member("slot_data", JsonValue::Bool(self.slot_data)));
        let json = object(fields);
        assert(json@->Object_0 =~= self.tree()->Object_0);
        json
    }
}

impl ConnectUpdate {
    /// The object that stands for the value on the wire.
    pub open spec fn tree(self) -> JsonView {
        JsonView::Object(
            seq![
                ("cmd"@, JsonView::Text("ConnectUpdate"@)),
                ("items_handling"@, JsonView::Int(self.items_handling.code_of() as i64)),
                ("tags"@, text_list(self.tags@)),
            ],
        )
    }

    /// Builds the object that stands for the value on the wire.
    pub fn to_json(&self) -> (json: JsonValue)
        ensures
            json@ == self.tree(),
    {
        let mut fields: Vec<JsonField> = Vec::new();
        fields.push(JsonValue::member("cmd", JsonValue::text("ConnectUpdate")));
        fields.push(
            JsonValue::member("items_handling", JsonValue::Int(self.items_handling.code() as i64)),
        );
        fields.push(JsonValue::member("tags", JsonValue::strings(&self.tags)));
        let json = object(fields);
        assert(json@->Object_0 =~= self.tree()->Object_0);
        json
    }
}

impl Sync {
    /// The object that stands for the value on the wire.
    pub open spec fn tree(self) -> JsonView {
        JsonView::Object(seq![("cmd"@, JsonView::Text("Sync"@))])
    }

    /// Builds the object that stands for the value on the wire.
    pub fn to_json(&self) -> (json: JsonValue)
        ensures
            json@ == self.tree(),
    {
        let mut fields: Vec<JsonField> = Vec::new();
        fields.push(JsonValue::member("cmd", JsonValue::text("Sync")));
        let json = object(fields);
        assert(json@->Object_0 =~= self.tree()->Object_0);
        json
    }
}

/// The message that reports `locations` as checked.
pub open spec fn checks_tree(locations: Seq<i64>) -> JsonView {
    JsonView::Object(
        seq![("cmd"@, JsonView::Text("LocationChecks"@)), ("locations"@, int_list(locations))],
    )
}

impl LocationChecks {
    /// The object that stands for the value on the wire.
    pub open spec fn tree(self) -> JsonView {
        checks_tree(self.locations@)
    }

    /// Builds the object that stands for the value on the wire.
    pub fn to_json(&self) -> (json: JsonValue)
        ensures
            json@ == self.tree(),
    {
        let mut fields: Vec<JsonField> = Vec::new();
        fields.push(JsonValue::member("cmd", JsonValue::text("LocationChecks")));
        fields.push(JsonValue::member("locations", JsonValue::ints(&self.locations)));
        let json = object(fields);
        assert(json@->Object_0 =~= self.tree()->Object_0);
        json
    }
}

impl LocationScouts {
    /// The object that stands for the value on the wire.
    pub open spec fn tree(self) -> JsonView {
        JsonView::Object(
            seq![
                ("cmd"@, JsonView::Text("LocationScouts"@)),
                ("locations"@, int_list(self.locations@)),
                ("create_as_hint"@, JsonView::Int(self.create_as_hint)),
            ],
        )
    }

    /// Builds the object that stands for the value on the wire.
    pub fn to_json(&self) -> (json: JsonValue)
        ensures
            json@ == self.tree(),
    {
        let mut fields: Vec<JsonField> = Vec::new();
        fields.push(JsonValue::member("cmd", JsonValue::text("LocationScouts")));
        fields.push(JsonValue::member("locations", JsonValue::ints(&self.locations)));
        fields.push(JsonValue::member("create_as_hint", JsonValue::Int(self.create_as_hint)));
        let json = object(fields);
        assert(json@->Object_0 =~= self.tree()->Object_0);
        json
    }
}

impl CreateHints {
    /// The object that stands for the value on the wire.
    pub open spec fn tree(self) -> JsonView {
        JsonView::Object(
            seq![
                ("cmd"@, JsonView::Text("CreateHints"@)),
                ("locations"@, int_list(self.locations@)),
                ("player"@, JsonView::Int(self.player)),
                ("status"@, JsonView::Int(self.status.code_of() as i64)),
            ],
        )
    }

    /// Builds the object that stands for the value on the wire.
    pub fn to_json(&self) -> (json: JsonValue)
        ensures
            json@ == self.tree(),
    {
        let mut fields: Vec<JsonField> = Vec::new();
        fields.push(JsonValue::member("cmd", JsonValue::text("CreateHints")));
        fields.push(JsonValue::member("locations", JsonValue::ints(&self.locations)));
        fields.push(JsonValue::member("player", JsonValue::Int(self.player)));
        fields.push(JsonValue::member("status", JsonValue::Int(self.status.code() as i64)));
        let json = object(fields);
        assert(json@->Object_0 =~= self.tree()->Object_0);
        json
    }
}

impl UpdateHint {
    /// The object that stands for the value on the wire.
    pub open spec fn tree(self) -> JsonView {
        JsonView::Object(
            seq![
                ("cmd"@, JsonView::Text("UpdateHint"@)),
                ("player"@, JsonView::Int(self.player)),
                ("location"@, JsonView::Int(self.location)),
                ("status"@, JsonView::Int(self.status.code_of() as i64)),
            ],
        )
    }

    /// Builds the object that stands for the value on the wire.
    pub fn to_json(&self) -> (json: JsonValue)
        ensures
            json@ == self.tree(),
    {
        let mut fields: Vec<JsonField> = Vec::new();
        fields.push(JsonValue::member("cmd", JsonValue::text("UpdateHint")));
        fields.push(JsonValue::member("player", JsonValue::Int(self.player)));
        fields.push(JsonValue::member("location", JsonValue::Int(self.location)));
        fields.push(JsonValue::member("status", JsonValue::Int(self.status.code() as i64)));
        let json = object(fields);
        assert(json@->Object_0 =~= self.tree()->Object_0);
        json
    }
}

impl StatusUpdate {
    /// The object that stands for the value on the wire.
    pub open spec fn tree(self) -> JsonView {
        JsonView::Object(
            seq![
                ("cmd"@, JsonView::Text("StatusUpdate"@)),
                ("status"@, JsonView::Int(self.status.code_of() as i64)),
            ],
        )
    }

    /// Builds the object that stands for the value on the wire.
    pub fn to_json(&self) -> (json: JsonValue)
        ensures
            json@ == self.tree(),
    {
        let mut fields: Vec<JsonField> = Vec::new();
        fields.push(JsonValue::member("cmd", JsonValue::text("StatusUpdate")));
        fields.push(JsonValue::member("status", JsonValue::Int(self.status.code() as i64)));
        let json = object(fields);
        assert(json@->Object_0 =~= self.tree()->Object_0);
        json
    }
}

impl Say {
    /// The object that stands for the value on the wire.
    pub open spec fn tree(self) -> JsonView {
        JsonView::Object(
            seq![("cmd"@, JsonView::Text("Say"@)), ("text"@, JsonView::Text(self.text@))],
        )
    }

    /// Builds the object that stands for the value on the wire.
    pub fn to_json(&self) -> (json: JsonValue)
        ensures
            json@ == self.tree(),
    {
        let mut fields: Vec<JsonField> = Vec::new();
        fields.push(JsonValue::member("cmd", JsonValue::text("Say")));
        fields.push(JsonValue::member("text", JsonValue::Text(self.text.clone())));
        let json = object(fields);
        assert(json@->Object_0 =~= self.tree()->Object_0);
        json
    }
}

impl GetDataPackage {
    /// The object that stands for the value on the wire.
    pub open spec fn tree(self) -> JsonView {
        JsonView::Object(
            seq![
                ("cmd"@, JsonView::Text("GetDataPackage"@)),
                ("games"@, text_list(self.games@)),
            ],
        )
    }

    /// Builds the object that stands for the value on the wire.
    pub fn to_json(&self) -> (json: JsonValue)
        ensures
            json@ == self.tree(),
    {
        let mut fields: Vec<JsonField> = Vec::new();
        fields.push(JsonValue::member("cmd", JsonValue::text("GetDataPackage")));
        fields.push(JsonValue::member("games", JsonValue::strings(&self.games)));
        let json = object(fields);
        assert(json@->Object_0 =~= self.tree()->Object_0);
        json
    }
}

impl Bounce {
    /// The object that stands for the value on the wire.
    pub open spec fn tree(self) -> JsonView {
        JsonView::Object(
            seq![
                ("cmd"@, JsonView::Text("Bounce"@)),
                ("games"@, text_list(self.games@)),
                ("slots"@, int_list(self.slots@)),
                ("tags"@, text_list(self.tags@)),
                ("data"@, text_map(self.data@)),
            ],
        )
    }

    /// Builds the object that stands for the value on the wire.
    pub fn to_json(&self) -> (json: JsonValue)
        ensures
            json@ == self.tree(),
    {
        let mut fields: Vec<JsonField> = Vec::new();
        fields.push(JsonValue::member("cmd", JsonValue::text("Bounce")));
        fields.push(JsonValue::member("games", JsonValue::strings(&self.games)));
        fields.push(JsonValue::member("slots", JsonValue::ints(&self.slots)));
        fields.push(JsonValue::member("tags", JsonValue::strings(&self.tags)));
        fields.push(JsonValue::member("data", string_map(&self.data)));
        let json = object(fields);
        assert(json@->Object_0 =~= self.tree()->Object_0);
        json
    }
}

impl Get {
    /// The object that stands for the value on the wire.
    pub open spec fn tree(self) -> JsonView {
        JsonView::Object(
            seq![("cmd"@, JsonView::Text("Get"@)), ("keys"@, text_list(self.keys@))],
        )
    }

    /// Builds the object that stands for the value on the wire.
    pub fn to_json(&self) -> (json: JsonValue)
        ensures
            json@ == self.tree(),
    {
        let mut fields: Vec<JsonField> = Vec::new();
        fields.push(JsonValue::member("cmd", JsonValue::text("Get")));
        fields.push(JsonValue::member("keys", JsonValue::strings(&self.keys)));
        let json = object(fields);
        assert(json@->Object_0 =~= self.tree()->Object_0);
        json
    }
}

impl DataStorageOperation {
    /// The object that stands for the value on the wire.
    pub open spec fn tree(self) -> JsonView {
        JsonView::Object(
            seq![
                ("operation"@, JsonView::Text(self.operation.name_of())),
                ("value"@, JsonView::Text(self.value@)),
            ],
        )
    }

    /// Builds the object that stands for the value on the wire.
    pub fn to_json(&self) -> (json: JsonValue)
        ensures
            json@ == self.tree(),
    {
        let mut fields: Vec<JsonField> = Vec::new();
        fields.push(JsonValue::member("operation", JsonValue::text(self.operation.name())));
        fields.push(JsonValue::member("value", JsonValue::Text(self.value.clone())));
        let json = object(fields);
        assert(json@->Object_0 =~= self.tree()->Object_0);
        json
    }
}

impl SetData {
    /// The object that stands for the value on the wire.
    pub open spec fn tree(self) -> JsonView {
        JsonView::Object(
            seq![
                ("cmd"@, JsonView::Text("Set"@)),
                ("key"@, JsonView::Text(self.key@)),
                ("default"@, JsonView::Text(self.default@)),
                ("want_reply"@, JsonView::Bool(self.want_reply)),
                (
                    "operations"@,
                    JsonView::List(
                        self.operations@.map_values(|o: DataStorageOperation| o.tree()),
                    ),
                ),
            ],
        )
    }

    /// Builds the object that stands for the value on the wire.
    pub fn to_json(&self) -> (json: JsonValue)
        ensures
            json@ == self.tree(),
    {
        let mut operations: Vec<JsonValue> = Vec::new();
        let mut i: usize = 0;
        while i < self.operations.len()
            invariant
                i <= self.operations@.len(),
                operations@.len() == i,
                forall|j: int|
                    0 <= j < i ==> (#[trigger] operations@[j])@ == self.operations@[j].tree(),
            decreases self.operations@.len() - i,
        {
            operations.push(self.operations[i].to_json());
            i += 1;
        }
        let listed = list(operations);
        assert(listed@->List_0 =~= self.operations@.map_values(
            |o: DataStorageOperation| o.tree(),
        ));
        let mut fields: Vec<JsonField> = Vec::new();
        fields.push(JsonValue::member("cmd", JsonValue::text("Set")));
        fields.push(JsonValue::member("key", JsonValue::Text(self.key.clone())));
        fields.push(JsonValue::member("default", JsonValue::Text(self.default.clone())));
        fields.push(JsonValue::member("want_reply", JsonValue::Bool(self.want_reply)));
        fields.push(JsonValue::member("operations", listed));
        let json = object(fields);
        assert(json@->Object_0 =~= self.tree()->Object_0);
        json
    }
}

impl SetNotify {
    /// The object that stands for the value on the wire.
    pub open spec fn tree(self) -> JsonView {
        JsonView::Object(
            seq![("cmd"@, JsonView::Text("SetNotify"@)), ("keys"@, text_list(self.keys@))],
        )
    }

    /// Builds the object that stands for the value on the wire.
    pub fn to_json(&self) -> (json: JsonValue)
        ensures
            json@ == self.tree(),
    {
        let mut fields: Vec<JsonField> = Vec::new();
        fields.push(JsonValue::member("cmd", JsonValue::text("SetNotify")));
        fields.push(JsonValue::member("keys", JsonValue::strings(&self.keys)));
        let json = object(fields);
        assert(json@->Object_0 =~= self.tree()->Object_0);
        json
    }
}

impl ClientPayload {
    /// The object that stands for the payload on the wire: its kind under
    /// `cmd`, then its fields.
    pub open spec fn tree(self) -> JsonView {
        match self {
            ClientPayload::Connect(p) => p.tree(),
            ClientPayload::ConnectUpdate(p) => p.tree(),
            ClientPayload::Sync(p) => p.tree(),
            ClientPayload::LocationChecks(p) => p.tree(),
            ClientPayload::LocationScouts(p) => p.tree(),
            ClientPayload::CreateHints(p) => p.tree(),
            ClientPayload::UpdateHint(p) => p.tree(),
            ClientPayload::StatusUpdate(p) => p.tree(),
            ClientPayload::Say(p) => p.tree(),
            ClientPayload::GetDataPackage(p) => p.tree(),
            ClientPayload::Bounce(p) => p.tree(),
            ClientPayload::Get(p) => p.tree(),
            ClientPayload::SetData(p) => p.tree(),
            ClientPayload::SetNotify(p) => p.tree(),
        }
    }

    /// Builds the object that stands for the value on the wire.
    pub fn to_json(&self) -> (json: JsonValue)
        ensures
            json@ == self.tree(),
    {
        match self {
            ClientPayload::Connect(p) => p.to_json(),
            ClientPayload::ConnectUpdate(p) => p.to_json(),
            ClientPayload::Sync(p) => p.to_json(),
            ClientPayload::LocationChecks(p) => p.to_json(),
            ClientPayload::LocationScouts(p) => p.to_json(),
            ClientPayload::CreateHints(p) => p.to_json(),
            ClientPayload::UpdateHint(p) => p.to_json(),
            ClientPayload::StatusUpdate(p) => p.to_json(),
            ClientPayload::Say(p) => p.to_json(),
            ClientPayload::GetDataPackage(p) => p.to_json(),
            ClientPayload::Bounce(p) => p.to_json(),
            ClientPayload::Get(p) => p.to_json(),
            ClientPayload::SetData(p) => p.to_json(),
            ClientPayload::SetNotify(p) => p.to_json(),
        }
    }

    /// The frame that carries the payload: an array with the payload as
    /// its one element.
    pub open spec fn frame(self) -> JsonView {
        JsonView::List(seq![self.tree()])
    }
}

/// Writes the frame that carries `message` as JSON text. A frame that
/// cannot be written gives `PayloadSerializationFailure`.
pub(crate) fn encode_tree(message: JsonValue) -> (text: Result<String, APError>)
    ensures
        match text {
            Ok(out) => written(JsonView::List(seq![message@])) == Some(out@),
            Err(fault) => written(JsonView::List(seq![message@])) is None && fault
                == APError::PayloadSerializationFailure,
        },
{
    let ghost tree = message@;
    let mut items: Vec<JsonValue> = Vec::new();
    items.push(message);
    let frame = list(items);
    assert(frame@->List_0 =~= seq![tree]);
    match to_text(&frame) {
        Some(out) => Ok(out),
        None => Err(APError::PayloadSerializationFailure),
    }
}

/// Writes the frame that carries `payload` as JSON text: an array whose one
/// element is the object that stands for the payload, without blanks.
pub fn encode(payload: &ClientPayload) -> (text: Result<String, APError>)
    ensures
        match text {
            Ok(out) => written(payload.frame()) == Some(out@),
            Err(fault) => written(payload.frame()) is None && fault
                == APError::PayloadSerializationFailure,
        },
{
    encode_tree(payload.to_json())
}

} // verus!
