use serde_json::Value;
use vstd::prelude::*;

verus! {

/// A JSON document as a tree of plain values. A number that is no integer
/// of 64 bits is kept as the text that stands for it.
#[derive(Debug)]
pub enum JsonValue {
    Null,
    Bool(bool),
    Int(i64),
    Real(String),
    Text(String),
    List(Vec<JsonValue>),
    Object(Vec<JsonField>),
}

/// One member of a JSON object.
#[derive(Debug)]
pub struct JsonField {
    pub name: String,
    pub value: JsonValue,
}

/// A JSON document as a value.
pub enum JsonView {
    Null,
    Bool(bool),
    Int(i64),
    Real(Seq<char>),
    Text(Seq<char>),
    List(Seq<JsonView>),
    Object(Seq<(Seq<char>, JsonView)>),
}

/// The value that a tree stands for.
pub open spec fn tree_of(value: JsonValue) -> JsonView
    decreases value,
{
    match value {
        JsonValue::Null => JsonView::Null,
        JsonValue::Bool(b) => JsonView::Bool(b),
        JsonValue::Int(i) => JsonView::Int(i),
        JsonValue::Real(t) => JsonView::Real(t@),
        JsonValue::Text(s) => JsonView::Text(s@),
        JsonValue::List(items) => JsonView::List(
            Seq::new(
                items@.len(),
                |i: int|
                    if 0 <= i < items@.len() {
                        tree_of(items[i])
                    } else {
                        JsonView::Null
                    },
            ),
        ),
        JsonValue::Object(fields) => JsonView::Object(
            Seq::new(
                fields@.len(),
                |i: int|
                    if 0 <= i < fields@.len() {
                        (fields[i].name@, tree_of(fields[i].value))
                    } else {
                        (Seq::empty(), JsonView::Null)
                    },
            ),
        ),
    }
}

impl View for JsonValue {
    type V = JsonView;

    open spec fn view(&self) -> JsonView {
        tree_of(*self)
    }
}

/// The character that stands for a digit.
pub open spec fn digit(value: int) -> char {
    if value == 0 {
        '0'
    } else if value == 1 {
        '1'
    } else if value == 2 {
        '2'
    } else if value == 3 {
        '3'
    } else if value == 4 {
        '4'
    } else if value == 5 {
        '5'
    } else if value == 6 {
        '6'
    } else if value == 7 {
        '7'
    } else if value == 8 {
        '8'
    } else {
        '9'
    }
}

/// The decimal digits of a natural number, the most significant first.
pub open spec fn digits_of(number: nat) -> Seq<char>
    decreases number,
{
    if number < 10 {
        seq![digit(number as int)]
    } else {
        digits_of(number / 10).push(digit((number % 10) as int))
    }
}

/// The decimal digits that stand for an integer, with a minus sign before
/// those of a negative one.
pub open spec fn decimal(number: i64) -> Seq<char> {
    if number < 0 {
        seq!['-'] + digits_of((-number) as nat)
    } else {
        digits_of(number as nat)
    }
}

/// The characters of the digits `low`, which come least significant first,
/// in the order of writing.
pub open spec fn turned(low: Seq<u8>) -> Seq<char> {
    Seq::new(low.len(), |i: int| digit(low[low.len() - 1 - i] as int))
}

/// The text of one digit.
fn digit_text(value: u8) -> (text: &'static str)
    requires
        value < 10,
    ensures
        text@ == seq![digit(value as int)],
{
    proof {
        reveal_strlit("0");
        reveal_strlit("1");
        reveal_strlit("2");
        reveal_strlit("3");
        reveal_strlit("4");
        reveal_strlit("5");
        reveal_strlit("6");
        reveal_strlit("7");
        reveal_strlit("8");
        reveal_strlit("9");
    }
    let text = match value {
        0 => "0",
        1 => "1",
        2 => "2",
        3 => "3",
        4 => "4",
        5 => "5",
        6 => "6",
        7 => "7",
        8 => "8",
        _ => "9",
    };
    text
}

/// Writes an integer in decimal digits.
pub fn digits(number: i64) -> (text: String)
    ensures
        text@ == decimal(number),
{
    let magnitude: u64 = if number < 0 {
        (-(number + 1)) as u64 + 1
    } else {
        number as u64
    };
    let mut rest: u64 = magnitude;
    let mut low: Vec<u8> = Vec::new();
    while rest >= 10
        invariant
            digits_of(magnitude as nat) == digits_of(rest as nat) + turned(low@),
            forall|j: int| 0 <= j < low@.len() ==> low@[j] < 10,
        decreases rest,
    {
        let last = (rest % 10) as u8;
        proof {
            assert(turned(low@.push(last)) =~= seq![digit(last as int)] + turned(low@));
        }
        low.push(last);
        rest = rest / 10;
    }
    let mut text = if number < 0 {
        String::from_str("-")
    } else {
        String::new()
    };
    proof {
        reveal_strlit("-");
    }
    let ghost sign = text@;
    text.append(digit_text(rest as u8));
    let mut i: usize = low.len();
    while i > 0
        invariant
            i <= low@.len(),
            forall|j: int| 0 <= j < low@.len() ==> low@[j] < 10,
            text@ == sign + digits_of(rest as nat) + turned(low@).take(low@.len() - i),
        decreases i,
    {
        i -= 1;
        text.append(digit_text(low[i]));
    }
    text
}

impl JsonView {
    /// The value of the first member called `name`, if this is an object
    /// that has one.
    pub open spec fn field(self, name: Seq<char>) -> Option<JsonView> {
        match self {
            JsonView::Object(fields) => {
                match fields.map_values(|f: (Seq<char>, JsonView)| f.0).index_of_first(name) {
                    Some(index) => Some(fields[index].1),
                    None => None,
                }
            },
            _ => None,
        }
    }

    /// The integer, if this is one.
    pub open spec fn as_int(self) -> Option<i64> {
        match self {
            JsonView::Int(i) => Some(i),
            _ => None,
        }
    }

    /// The truth value, if this is one.
    pub open spec fn as_bool(self) -> Option<bool> {
        match self {
            JsonView::Bool(b) => Some(b),
            _ => None,
        }
    }

    /// The text, if this is a string.
    pub open spec fn as_text(self) -> Option<Seq<char>> {
        match self {
            JsonView::Text(s) => Some(s),
            _ => None,
        }
    }

    /// The elements, if this is an array.
    pub open spec fn as_list(self) -> Option<Seq<JsonView>> {
        match self {
            JsonView::List(items) => Some(items),
            _ => None,
        }
    }

    /// The members, if this is an object.
    pub open spec fn as_object(self) -> Option<Seq<(Seq<char>, JsonView)>> {
        match self {
            JsonView::Object(fields) => Some(fields),
            _ => None,
        }
    }

    /// The integer under `name`.
    pub open spec fn int_at(self, name: Seq<char>) -> Option<i64> {
        match self.field(name) {
            Some(value) => value.as_int(),
            None => None,
        }
    }

    /// The truth value under `name`.
    pub open spec fn bool_at(self, name: Seq<char>) -> Option<bool> {
        match self.field(name) {
            Some(value) => value.as_bool(),
            None => None,
        }
    }

    /// The text under `name`.
    pub open spec fn text_at(self, name: Seq<char>) -> Option<Seq<char>> {
        match self.field(name) {
            Some(value) => value.as_text(),
            None => None,
        }
    }

    /// The integers of the array under `name`.
    pub open spec fn ints_at(self, name: Seq<char>) -> Option<Seq<i64>> {
        match self.field(name) {
            Some(value) => value.as_ints(),
            None => None,
        }
    }

    /// The texts of the array under `name`.
    pub open spec fn texts_at(self, name: Seq<char>) -> Option<Seq<Seq<char>>> {
        match self.field(name) {
            Some(value) => value.as_texts(),
            None => None,
        }
    }

    /// The elements of the array under `name`.
    pub open spec fn list_at(self, name: Seq<char>) -> Option<Seq<JsonView>> {
        match self.field(name) {
            Some(value) => value.as_list(),
            None => None,
        }
    }

    /// The members of the object under `name`.
    pub open spec fn object_at(self, name: Seq<char>) -> Option<Seq<(Seq<char>, JsonView)>> {
        match self.field(name) {
            Some(value) => value.as_object(),
            None => None,
        }
    }

    /// Whether nothing stands under `name`: no member, or null.
    pub open spec fn absent(self, name: Seq<char>) -> bool {
        self.field(name) is None || self.field(name) == Some(JsonView::Null)
    }

    /// The integers of an array that holds nothing but integers.
    pub open spec fn as_ints(self) -> Option<Seq<i64>> {
        match self {
            JsonView::List(items) => if forall|i: int|
                0 <= i < items.len() ==> (#[trigger] items[i]) is Int {
                Some(items.map_values(|v: JsonView| v->Int_0))
            } else {
                None
            },
            _ => None,
        }
    }

    /// The texts of an array that holds nothing but strings.
    pub open spec fn as_texts(self) -> Option<Seq<Seq<char>>> {
        match self {
            JsonView::List(items) => if forall|i: int|
                0 <= i < items.len() ==> (#[trigger] items[i]) is Text {
                Some(items.map_values(|v: JsonView| v->Text_0))
            } else {
                None
            },
            _ => None,
        }
    }
}

/// The texts of `list` as values.
pub open spec fn texts(list: Seq<String>) -> Seq<Seq<char>> {
    list.map_values(|s: String| s@)
}

/// The JSON string that `serde_json` writes for a text: the text between
/// quotes, with what JSON cannot hold as it is written as an escape.
pub uninterp spec fn quoted(text: Seq<char>) -> Option<Seq<char>>;

/// The document that `serde_json` reads from a text, where the text is JSON.
pub uninterp spec fn json_tree(text: Seq<char>) -> Option<JsonView>;

/// The document that a `serde_json::Value` holds. A number is an integer
/// where `Number::as_i64` gives one, and else the text that `Number`'s
/// `to_string` gives; the members of an object come in the order in which
/// the value hands them out.
pub uninterp spec fn held(value: Value) -> JsonView;

/// `serde_json::Value`, the document as `serde_json` holds it. Nothing is
/// known of what is inside but what `held` names.
#[verifier::external_type_specification]
#[verifier::external_body]
pub struct ExValue(serde_json::Value);

/// `serde_json::Error`, the fault that `serde_json` reports. Nothing is known
/// of what is inside.
#[verifier::external_type_specification]
#[verifier::external_body]
pub struct ExError(serde_json::Error);

/// `serde_json::to_string` for a string. The JSON string is a function of
/// the text alone; the contract gives it its name.
#[verifier::external_body]
fn quote(text: &str) -> (json: Result<String, serde_json::Error>)
    ensures
        match json {
            Ok(written) => quoted(text@) == Some(written@),
            Err(_) => quoted(text@) is None,
        },
{
    serde_json::to_string(text)
}

/// `serde_json::from_str` for a `serde_json::Value`. The document read is a
/// function of the text alone; the contract gives it its name.
#[verifier::external_body]
fn parse(text: &str) -> (value: Option<Value>)
    ensures
        match value {
            Some(read) => json_tree(text@) == Some(held(read)),
            None => json_tree(text@) is None,
        },
{
    serde_json::from_str::<Value>(text).ok()
}

/// Builds the tree that holds what a `serde_json::Value` holds, node by
/// node: one arm for each kind of value, each moving what the value holds.
#[verifier::external_body]
fn lift(value: &Value) -> (tree: JsonValue)
    ensures
        tree@ == held(*value),
{
    match value {
        Value::Null => JsonValue::Null,
        Value::Bool(b) => JsonValue::Bool(*b),
        Value::Number(n) => n.as_i64().map_or_else(|| JsonValue::Real(n.to_string()), JsonValue::Int),
        Value::String(s) => JsonValue::Text(s.clone()),
        Value::Array(items) => JsonValue::List(items.iter().map(lift).collect()),
        Value::Object(fields) => JsonValue::Object(
            fields.iter().map(|(k, v)| JsonField { name: k.clone(), value: lift(v) }).collect(),
        ),
    }
}

/// Reads a JSON text into a tree. There is no tree where the text is not
/// JSON.
pub fn from_text(text: &str) -> (tree: Option<JsonValue>)
    ensures
        match tree {
            Some(read) => json_tree(text@) == Some(read@),
            None => json_tree(text@) is None,
        },
{
    match parse(text) {
        Some(value) => Some(lift(&value)),
        None => None,
    }
}

/// The compact JSON text of a document: no blanks, the members of an
/// object in their order, strings as `serde_json` writes them. There is no
/// text where a string cannot be written.
pub open spec fn written(tree: JsonView) -> Option<Seq<char>>
    decreases tree,
{
    match tree {
        JsonView::Null => Some("null"@),
        JsonView::Bool(truth) => Some(
            if truth {
                "true"@
            } else {
                "false"@
            },
        ),
        JsonView::Int(number) => Some(decimal(number)),
        JsonView::Real(text) => Some(text),
        JsonView::Text(text) => quoted(text),
        JsonView::List(items) => match written_list(items) {
            Some(inner) => Some("["@ + inner + "]"@),
            None => None,
        },
        JsonView::Object(fields) => match written_members(fields) {
            Some(inner) => Some("{"@ + inner + "}"@),
            None => None,
        },
    }
}

/// The texts of the elements of an array, with commas between them.
pub open spec fn written_list(items: Seq<JsonView>) -> Option<Seq<char>>
    decreases items,
{
    if items.len() == 0 {
        Some(Seq::empty())
    } else {
        match (written_list(items.drop_last()), written(items.last())) {
            (Some(before), Some(last)) => Some(
                if items.len() == 1 {
                    last
                } else {
                    before + ","@ + last
                },
            ),
            _ => None,
        }
    }
}

/// The text of one member of an object: its name as a string, a colon,
/// and its value.
pub open spec fn written_member(field: (Seq<char>, JsonView)) -> Option<Seq<char>>
    decreases field,
{
    match (quoted(field.0), written(field.1)) {
        (Some(name), Some(value)) => Some(name + ":"@ + value),
        _ => None,
    }
}

/// The texts of the members of an object, with commas between them.
pub open spec fn written_members(fields: Seq<(Seq<char>, JsonView)>) -> Option<Seq<char>>
    decreases fields,
{
    if fields.len() == 0 {
        Some(Seq::empty())
    } else {
        match (written_members(fields.drop_last()), written_member(fields.last())) {
            (Some(before), Some(last)) => Some(
                if fields.len() == 1 {
                    last
                } else {
                    before + ","@ + last
                },
            ),
            _ => None,
        }
    }
}

impl JsonValue {
    /// An object member.
    pub fn member(name: &str, value: JsonValue) -> (field: JsonField)
        ensures
            field.name@ == name@,
            field.value == value,
    {
        JsonField { name: String::from_str(name), value }
    }

    /// A string.
    pub fn text(text: &str) -> (value: JsonValue)
        ensures
            value@ == JsonView::Text(text@),
    {
        JsonValue::Text(String::from_str(text))
    }

    /// An array of integers.
    pub fn ints(numbers: &Vec<i64>) -> (value: JsonValue)
        ensures
            value@ == JsonView::List(numbers@.map_values(|n: i64| JsonView::Int(n))),
    {
        let mut items: Vec<JsonValue> = Vec::new();
        let mut i: usize = 0;
        while i < numbers.len()
            invariant
                i <= numbers@.len(),
                items@.len() == i,
                forall|j: int| 0 <= j < i ==> (#[trigger] items@[j])@ == JsonView::Int(numbers@[j]),
            decreases numbers@.len() - i,
        {
            items.push(JsonValue::Int(numbers[i]));
            i += 1;
        }
        let value = JsonValue::List(items);
        assert(value@->List_0 =~= numbers@.map_values(|n: i64| JsonView::Int(n)));
        value
    }

    /// An array of strings.
    pub fn strings(list: &Vec<String>) -> (value: JsonValue)
        ensures
            value@ == JsonView::List(texts(list@).map_values(|s: Seq<char>| JsonView::Text(s))),
    {
        let mut items: Vec<JsonValue> = Vec::new();
        let mut i: usize = 0;
        while i < list.len()
            invariant
                i <= list@.len(),
                items@.len() == i,
                forall|j: int| 0 <= j < i ==> (#[trigger] items@[j])@ == JsonView::Text(list@[j]@),
            decreases list@.len() - i,
        {
            items.push(JsonValue::Text(list[i].clone()));
            i += 1;
        }
        let value = JsonValue::List(items);
        assert(value@->List_0 =~= texts(list@).map_values(|s: Seq<char>| JsonView::Text(s)));
        value
    }

    /// The value of the first member called `name`.
    pub fn field<'a>(&'a self, name: &str) -> (found: Option<&'a JsonValue>)
        ensures
            match found {
                Some(value) => self@.field(name@) == Some(value@),
                None => self@.field(name@) is None,
            },
    {
        match self {
            JsonValue::Object(fields) => {
                let key = String::from_str(name);
                let ghost names = self@->Object_0.map_values(|f: (Seq<char>, JsonView)| f.0);
                let mut i: usize = 0;
                while i < fields.len()
                    invariant
                        i <= fields@.len(),
                        key@ == name@,
                        self@ is Object,
                        names == self@->Object_0.map_values(|f: (Seq<char>, JsonView)| f.0),
                        names.len() == fields@.len(),
                        forall|j: int|
                            0 <= j < fields@.len() ==> #[trigger] names[j] == fields@[j].name@,
                        forall|j: int|
                            0 <= j < fields@.len() ==> (#[trigger] self@->Object_0[j]).1
                                == fields@[j].value@,
                        forall|j: int| 0 <= j < i ==> #[trigger] names[j] != name@,
                    decreases fields@.len() - i,
                {
                    if fields[i].name == key {
                        proof {
                            assert(names[i as int] == name@);
                            names.index_of_first_ensures(name@);
                        }
                        return Some(&fields[i].value);
                    }
                    i += 1;
                }
                proof {
                    names.index_of_first_ensures(name@);
                }
                None
            },
            _ => None,
        }
    }

    /// The integer, if this is one.
    pub fn as_int(&self) -> (number: Option<i64>)
        ensures
            number == self@.as_int(),
    {
        match self {
            JsonValue::Int(i) => Some(*i),
            _ => None,
        }
    }

    /// The truth value, if this is one.
    pub fn as_bool(&self) -> (truth: Option<bool>)
        ensures
            truth == self@.as_bool(),
    {
        match self {
            JsonValue::Bool(b) => Some(*b),
            _ => None,
        }
    }

    /// The text, if this is a string.
    pub fn as_text(&self) -> (text: Option<String>)
        ensures
            match text {
                Some(s) => self@.as_text() == Some(s@),
                None => self@.as_text() is None,
            },
    {
        match self {
            JsonValue::Text(s) => Some(s.clone()),
            _ => None,
        }
    }

    /// The elements of an array.
    pub fn as_list(&self) -> (list: Option<&Vec<JsonValue>>)
        ensures
            match list {
                Some(items) => self@.as_list() == Some(items@.map_values(|v: JsonValue| v@)),
                None => self@.as_list() is None,
            },
    {
        match self {
            JsonValue::List(items) => {
                Some(items)
            },
            _ => None,
        }
    }

    /// The integers of an array that holds nothing but integers.
    pub fn as_ints(&self) -> (list: Option<Vec<i64>>)
        ensures
            match list {
                Some(numbers) => self@.as_ints() == Some(numbers@),
                None => self@.as_ints() is None,
            },
    {
        match self {
            JsonValue::List(items) => {
                let ghost all = self@->List_0;
                let mut numbers: Vec<i64> = Vec::new();
                let mut i: usize = 0;
                while i < items.len()
                    invariant
                        i <= items@.len(),
                        self@ == JsonView::List(all),
                        all.len() == items@.len(),
                        forall|j: int| 0 <= j < items@.len() ==> #[trigger] all[j] == items@[j]@,
                        numbers@.len() == i,
                        forall|j: int| 0 <= j < i ==> (#[trigger] all[j]) is Int,
                        forall|j: int| 0 <= j < i ==> #[trigger] numbers@[j] == all[j]->Int_0,
                    decreases items@.len() - i,
                {
                    match &items[i] {
                        JsonValue::Int(n) => {
                            numbers.push(*n);
                        },
                        _ => {
                            assert(!(all[i as int] is Int));
                            return None;
                        },
                    }
                    i += 1;
                }
                Some(numbers)
            },
            _ => None,
        }
    }

    /// The texts of an array that holds nothing but strings.
    pub fn as_texts(&self) -> (list: Option<Vec<String>>)
        ensures
            match list {
                Some(strings) => self@.as_texts() == Some(texts(strings@)),
                None => self@.as_texts() is None,
            },
    {
        match self {
            JsonValue::List(items) => {
                let ghost all = self@->List_0;
                let mut strings: Vec<String> = Vec::new();
                let mut i: usize = 0;
                while i < items.len()
                    invariant
                        i <= items@.len(),
                        self@ == JsonView::List(all),
                        all.len() == items@.len(),
                        forall|j: int| 0 <= j < items@.len() ==> #[trigger] all[j] == items@[j]@,
                        strings@.len() == i,
                        forall|j: int| 0 <= j < i ==> (#[trigger] all[j]) is Text,
                        forall|j: int| 0 <= j < i ==> (#[trigger] strings@[j])@ == all[j]->Text_0,
                    decreases items@.len() - i,
                {
                    match &items[i] {
                        JsonValue::Text(s) => {
                            strings.push(s.clone());
                        },
                        _ => {
                            assert(!(all[i as int] is Text));
                            return None;
                        },
                    }
                    i += 1;
                }
                Some(strings)
            },
            _ => None,
        }
    }

    /// The members of an object.
    pub fn as_object(&self) -> (members: Option<&Vec<JsonField>>)
        ensures
            match members {
                Some(fields) => self@.as_object() == Some(
                    fields@.map_values(|f: JsonField| (f.name@, f.value@)),
                ),
                None => self@.as_object() is None,
            },
    {
        match self {
            JsonValue::Object(fields) => {
                Some(fields)
            },
            _ => None,
        }
    }

    /// Whether this is null.
    pub fn is_null(&self) -> (null: bool)
        ensures
            null == (self@ == JsonView::Null),
    {
        match self {
            JsonValue::Null => true,
            _ => false,
        }
    }

    /// The integer under `name`.
    pub fn int_at(&self, name: &str) -> (number: Option<i64>)
        ensures
            number == self@.int_at(name@),
    {
        match self.field(name) {
            Some(value) => value.as_int(),
            None => None,
        }
    }

    /// The truth value under `name`.
    pub fn bool_at(&self, name: &str) -> (truth: Option<bool>)
        ensures
            truth == self@.bool_at(name@),
    {
        match self.field(name) {
            Some(value) => value.as_bool(),
            None => None,
        }
    }

    /// The text under `name`.
    pub fn text_at(&self, name: &str) -> (text: Option<String>)
        ensures
            match text {
                Some(s) => self@.text_at(name@) == Some(s@),
                None => self@.text_at(name@) is None,
            },
    {
        match self.field(name) {
            Some(value) => value.as_text(),
            None => None,
        }
    }

    /// The integers of the array under `name`.
    pub fn ints_at(&self, name: &str) -> (list: Option<Vec<i64>>)
        ensures
            match list {
                Some(numbers) => self@.ints_at(name@) == Some(numbers@),
                None => self@.ints_at(name@) is None,
            },
    {
        match self.field(name) {
            Some(value) => value.as_ints(),
            None => None,
        }
    }

    /// The texts of the array under `name`.
    pub fn texts_at(&self, name: &str) -> (list: Option<Vec<String>>)
        ensures
            match list {
                Some(strings) => self@.texts_at(name@) == Some(texts(strings@)),
                None => self@.texts_at(name@) is None,
            },
    {
        match self.field(name) {
            Some(value) => value.as_texts(),
            None => None,
        }
    }

    /// The elements of the array under `name`.
    pub fn list_at<'a>(&'a self, name: &str) -> (list: Option<&'a Vec<JsonValue>>)
        ensures
            match list {
                Some(items) => self@.list_at(name@) == Some(items@.map_values(|v: JsonValue| v@)),
                None => self@.list_at(name@) is None,
            },
    {
        match self.field(name) {
            Some(value) => value.as_list(),
            None => None,
        }
    }

    /// The members of the object under `name`.
    pub fn object_at<'a>(&'a self, name: &str) -> (members: Option<&'a Vec<JsonField>>)
        ensures
            match members {
                Some(fields) => self@.object_at(name@) == Some(
                    fields@.map_values(|f: JsonField| (f.name@, f.value@)),
                ),
                None => self@.object_at(name@) is None,
            },
    {
        match self.field(name) {
            Some(value) => value.as_object(),
            None => None,
        }
    }

    /// Whether nothing stands under `name`: no member, or null.
    pub fn absent(&self, name: &str) -> (nothing: bool)
        ensures
            nothing == self@.absent(name@),
    {
        match self.field(name) {
            Some(value) => value.is_null(),
            None => true,
        }
    }
}

/// Where the text of a part of an array cannot be written, that of the
/// whole array cannot either.
pub proof fn unwritten_list(items: Seq<JsonView>, upto: int)
    requires
        0 <= upto <= items.len(),
        written_list(items.take(upto)) is None,
    ensures
        written_list(items) is None,
    decreases items.len() - upto,
{
    if upto < items.len() {
        assert(items.take(upto + 1).drop_last() =~= items.take(upto));
        unwritten_list(items, upto + 1);
    } else {
        assert(items.take(upto) =~= items);
    }
}

/// Where the text of a part of the members cannot be written, that of all
/// the members cannot either.
pub proof fn unwritten_members(fields: Seq<(Seq<char>, JsonView)>, upto: int)
    requires
        0 <= upto <= fields.len(),
        written_members(fields.take(upto)) is None,
    ensures
        written_members(fields) is None,
    decreases fields.len() - upto,
{
    if upto < fields.len() {
        assert(fields.take(upto + 1).drop_last() =~= fields.take(upto));
        unwritten_members(fields, upto + 1);
    } else {
        assert(fields.take(upto) =~= fields);
    }
}

/// Writes a document as compact JSON text.
pub fn to_text(tree: &JsonValue) -> (text: Option<String>)
    ensures
        match text {
            Some(out) => written(tree@) == Some(out@),
            None => written(tree@) is None,
        },
    decreases tree,
{
    match tree {
        JsonValue::Null => Some(String::from_str("null")),
        JsonValue::Bool(truth) => {
            if *truth {
                Some(String::from_str("true"))
            } else {
                Some(String::from_str("false"))
            }
        },
        JsonValue::Int(number) => Some(digits(*number)),
        JsonValue::Real(number) => Some(number.clone()),
        JsonValue::Text(text) => match quote(text.as_str()) {
            Ok(out) => Some(out),
            Err(_) => None,
        },
        JsonValue::List(items) => {
            let ghost all = tree@->List_0;
            let mut inner = String::new();
            let mut i: usize = 0;
            while i < items.len()
                invariant
                    i <= items@.len(),
                    *tree == JsonValue::List(*items),
                    all == tree@->List_0,
                    all.len() == items@.len(),
                    forall|j: int| 0 <= j < items@.len() ==> #[trigger] all[j] == items@[j]@,
                    written_list(all.take(i as int)) == Some(inner@),
                decreases items@.len() - i,
            {
                proof {
                    assert(all.take(i + 1).drop_last() =~= all.take(i as int));
                }
                match to_text(&items[i]) {
                    Some(element) => {
                        if i > 0 {
                            inner.append(",");
                        }
                        inner.append(element.as_str());
                    },
                    None => {
                        proof {
                            unwritten_list(all, i + 1);
                        }
                        return None;
                    },
                }
                i += 1;
            }
            assert(all.take(i as int) =~= all);
            let mut out = String::from_str("[");
            out.append(inner.as_str());
            out.append("]");
            Some(out)
        },
        JsonValue::Object(fields) => {
            let ghost all = tree@->Object_0;
            let mut inner = String::new();
            let mut i: usize = 0;
            while i < fields.len()
                invariant
                    i <= fields@.len(),
                    *tree == JsonValue::Object(*fields),
                    all == tree@->Object_0,
                    all.len() == fields@.len(),
                    forall|j: int|
                        0 <= j < fields@.len() ==> #[trigger] all[j] == (
                            fields@[j].name@,
                            fields@[j].value@,
                        ),
                    written_members(all.take(i as int)) == Some(inner@),
                decreases fields@.len() - i,
            {
                proof {
                    assert(all.take(i + 1).drop_last() =~= all.take(i as int));
                }
                let name = match quote(fields[i].name.as_str()) {
                    Ok(name) => name,
                    Err(_) => {
                        proof {
                            assert(written_member(all.take(i + 1).last()) is None);
                            unwritten_members(all, i + 1);
                        }
                        return None;
                    },
                };
                let value = match to_text(&fields[i].value) {
                    Some(value) => value,
                    None => {
                        proof {
                            unwritten_members(all, i + 1);
                        }
                        return None;
                    },
                };
                if i > 0 {
                    inner.append(",");
                }
                inner.append(name.as_str());
                inner.append(":");
                inner.append(value.as_str());
                i += 1;
            }
            assert(all.take(i as int) =~= all);
            let mut out = String::from_str("{");
            out.append(inner.as_str());
            out.append("}");
            Some(out)
        },
    }
}

} // verus!
