//! Message elements and their records: the field maps that consumers read and write.
use vstd::prelude::*;

use crate::text::{decimal_of, decimal_text, owned, text_is};

verus! {

/// A finger-guessing choice.
#[derive(Debug, PartialEq, Eq, Clone, Copy)]
pub enum Hand {
    Rock,
    Paper,
    Scissors,
}

/// Where an image was received.
#[derive(Debug, PartialEq, Eq, Clone, Copy)]
pub enum ImageSource {
    Group,
    Friend,
}

/// An opaque protocol object that a record carries by reference.
#[derive(Debug, PartialEq, Eq, Clone, Copy)]
pub enum Handle {
    MarketFace(u64),
    GroupImage(u64),
    FriendImage(u64),
    Audio(u64),
}

/// A message element as the protocol engine carries it.
#[derive(Debug, PartialEq, Eq)]
pub enum Elem {
    Text { content: String },
    /// A mention; target `0` mentions everyone.
    At { target: i64, display: String },
    /// A face by index; the name is read back from a record when it carries one.
    Face { index: i32, name: String },
    MarketFace { handle: u64 },
    Dice { value: i32 },
    FingerGuessing { hand: Hand },
    /// An image, possibly self-destructing (`flash`); the url is read back from a record when it
    /// carries one.
    Image { flash: bool, source: ImageSource, url: String, handle: u64 },
    LightApp { content: String },
    RichMessage { service_id: i32, content: String },
    /// A quoted message; in a chain it always comes first.
    Reply { seq: i32, sender: i64, time: i32, content: String },
    /// An element that consumers never see.
    Other,
    /// An element without a record of its own, kept as its debug text.
    Unknown { debug: String },
}

pub ghost enum ElemV {
    Text { content: Seq<char> },
    At { target: i64, display: Seq<char> },
    Face { index: i32, name: Seq<char> },
    MarketFace { handle: u64 },
    Dice { value: i32 },
    FingerGuessing { hand: Hand },
    Image { flash: bool, source: ImageSource, url: Seq<char>, handle: u64 },
    LightApp { content: Seq<char> },
    RichMessage { service_id: i32, content: Seq<char> },
    Reply { seq: i32, sender: i64, time: i32, content: Seq<char> },
    Other,
    Unknown { debug: Seq<char> },
}

impl View for Elem {
    type V = ElemV;

    open spec fn view(&self) -> ElemV {
        match self {
            Elem::Text { content } => ElemV::Text { content: content@ },
            Elem::At { target, display } => ElemV::At { target: *target, display: display@ },
            Elem::Face { index, name } => ElemV::Face { index: *index, name: name@ },
            Elem::MarketFace { handle } => ElemV::MarketFace { handle: *handle },
            Elem::Dice { value } => ElemV::Dice { value: *value },
            Elem::FingerGuessing { hand } => ElemV::FingerGuessing { hand: *hand },
            Elem::Image { flash, source, url, handle } => ElemV::Image {
                flash: *flash,
                source: *source,
                url: url@,
                handle: *handle,
            },
            Elem::LightApp { content } => ElemV::LightApp { content: content@ },
            Elem::RichMessage { service_id, content } => ElemV::RichMessage {
                service_id: *service_id,
                content: content@,
            },
            Elem::Reply { seq, sender, time, content } => ElemV::Reply {
                seq: *seq,
                sender: *sender,
                time: *time,
                content: content@,
            },
            Elem::Other => ElemV::Other,
            Elem::Unknown { debug } => ElemV::Unknown { debug: debug@ },
        }
    }
}

/// A field value of a record.
#[derive(Debug, PartialEq, Eq)]
pub enum Value {
    Int(i64),
    Str(String),
    Handle(Handle),
}

pub ghost enum ValueV {
    Int(i64),
    Str(Seq<char>),
    Handle(Handle),
}

impl View for Value {
    type V = ValueV;

    open spec fn view(&self) -> ValueV {
        match self {
            Value::Int(n) => ValueV::Int(*n),
            Value::Str(s) => ValueV::Str(s@),
            Value::Handle(h) => ValueV::Handle(*h),
        }
    }
}

/// A record: named fields in order. A key that occurs twice reads as its first occurrence.
#[derive(Debug, PartialEq, Eq)]
pub struct Record {
    pub fields: Vec<(String, Value)>,
}

pub type RecordV = Seq<(Seq<char>, ValueV)>;

impl View for Record {
    type V = RecordV;

    open spec fn view(&self) -> RecordV {
        self.fields@.map_values(|f: (String, Value)| (f.0@, f.1@))
    }
}

/// Why a record could not be read as an element.
#[derive(Debug, PartialEq, Eq)]
pub enum ElementError {
    /// The record has no `type` field.
    MissingType,
    /// A field that the element needs is absent.
    MissingField(String),
    /// A field holds a value of the wrong kind or out of range.
    BadField(String),
    /// The `type` names no element that can be sent.
    UnknownElement(String),
}

pub ghost enum ElementErrorV {
    MissingType,
    MissingField(Seq<char>),
    BadField(Seq<char>),
    UnknownElement(Seq<char>),
}

impl View for ElementError {
    type V = ElementErrorV;

    open spec fn view(&self) -> ElementErrorV {
        match self {
            ElementError::MissingType => ElementErrorV::MissingType,
            ElementError::MissingField(k) => ElementErrorV::MissingField(k@),
            ElementError::BadField(k) => ElementErrorV::BadField(k@),
            ElementError::UnknownElement(k) => ElementErrorV::UnknownElement(k@),
        }
    }
}

pub open spec fn hand_name(h: Hand) -> Seq<char> {
    match h {
        Hand::Rock => "Rock"@,
        Hand::Paper => "Paper"@,
        Hand::Scissors => "Scissors"@,
    }
}

pub open spec fn image_handle(source: ImageSource, handle: u64) -> Handle {
    match source {
        ImageSource::Group => Handle::GroupImage(handle),
        ImageSource::Friend => Handle::FriendImage(handle),
    }
}

/// The text shown for a mention of everyone.
pub open spec fn at_all_display() -> Seq<char> {
    "@全体成员"@
}

/// The record of an element; elements that consumers never see have none.
pub open spec fn record_of(e: ElemV) -> Option<RecordV> {
    match e {
        ElemV::At { target, display } => if target == 0 {
            Some(seq![("type"@, ValueV::Str("AtAll"@))])
        } else {
            Some(
                seq![
                    ("type"@, ValueV::Str("At"@)),
                    ("target"@, ValueV::Int(target)),
                    ("display"@, ValueV::Str(display)),
                ],
            )
        },
        ElemV::Text { content } => Some(
            seq![("type"@, ValueV::Str("Text"@)), ("text"@, ValueV::Str(content))],
        ),
        ElemV::Dice { value } => Some(
            seq![("type"@, ValueV::Str("Dice"@)), ("value"@, ValueV::Int(value as i64))],
        ),
        ElemV::FingerGuessing { hand } => Some(
            seq![
                ("type"@, ValueV::Str("FingerGuessing"@)),
                ("choice"@, ValueV::Str(hand_name(hand))),
            ],
        ),
        ElemV::Face { index, name } => Some(
            seq![
                ("type"@, ValueV::Str("Face"@)),
                ("index"@, ValueV::Int(index as i64)),
                ("name"@, ValueV::Str(name)),
            ],
        ),
        ElemV::MarketFace { handle } => Some(
            seq![
                ("type"@, ValueV::Str("MarketFace"@)),
                ("raw"@, ValueV::Handle(Handle::MarketFace(handle))),
            ],
        ),
        ElemV::Image { flash, source, url, handle } => Some(
            seq![
                ("type"@, ValueV::Str(
                    if flash {
                        "FlashImage"@
                    } else {
                        "Image"@
                    },
                )),
                ("url"@, ValueV::Str(url)),
                ("raw"@, ValueV::Handle(image_handle(source, handle))),
            ],
        ),
        ElemV::LightApp { content } => Some(
            seq![("type"@, ValueV::Str("LightApp"@)), ("content"@, ValueV::Str(content))],
        ),
        ElemV::RichMessage { service_id, content } => Some(
            seq![
                ("type"@, ValueV::Str("RichMessage"@)),
                ("service_id"@, ValueV::Int(service_id as i64)),
                ("content"@, ValueV::Str(content)),
            ],
        ),
        ElemV::Reply { seq, sender, time, content } => Some(
            seq![
                ("type"@, ValueV::Str("Reply"@)),
                ("seq"@, ValueV::Int(seq as i64)),
                ("sender"@, ValueV::Int(sender)),
                ("time"@, ValueV::Int(time as i64)),
                ("content"@, ValueV::Str(content)),
            ],
        ),
        ElemV::Other => None,
        ElemV::Unknown { debug } => Some(
            seq![("type"@, ValueV::Str("Unknown"@)), ("raw"@, ValueV::Str(debug))],
        ),
    }
}

/// The first value stored under `key`.
pub open spec fn lookup(r: RecordV, key: Seq<char>) -> Option<ValueV>
    decreases r.len(),
{
    if r.len() == 0 {
        None
    } else if r[0].0 == key {
        Some(r[0].1)
    } else {
        lookup(r.drop_first(), key)
    }
}

pub open spec fn int_field(r: RecordV, key: Seq<char>) -> Result<i64, ElementErrorV> {
    match lookup(r, key) {
        None => Err(ElementErrorV::MissingField(key)),
        Some(ValueV::Int(n)) => Ok(n),
        Some(_) => Err(ElementErrorV::BadField(key)),
    }
}

pub open spec fn i32_field(r: RecordV, key: Seq<char>) -> Result<i32, ElementErrorV> {
    match int_field(r, key) {
        Err(e) => Err(e),
        Ok(n) => if i32::MIN <= n <= i32::MAX {
            Ok(n as i32)
        } else {
            Err(ElementErrorV::BadField(key))
        },
    }
}

pub open spec fn str_field(r: RecordV, key: Seq<char>) -> Result<Seq<char>, ElementErrorV> {
    match lookup(r, key) {
        None => Err(ElementErrorV::MissingField(key)),
        Some(ValueV::Str(s)) => Ok(s),
        Some(_) => Err(ElementErrorV::BadField(key)),
    }
}

pub open spec fn hand_named(s: Seq<char>) -> Option<Hand> {
    if s == "Rock"@ {
        Some(Hand::Rock)
    } else if s == "Paper"@ {
        Some(Hand::Paper)
    } else if s == "Scissors"@ {
        Some(Hand::Scissors)
    } else {
        None
    }
}

/// The element that a record of kind `tag` describes; `Ok(None)` when the record is accepted
/// but adds nothing (a finger guess with an unknown choice).
pub open spec fn parse_elem(tag: Seq<char>, r: RecordV) -> Result<Option<ElemV>, ElementErrorV> {
    if tag == "AtAll"@ {
        Ok(Some(ElemV::At { target: 0, display: at_all_display() }))
    } else if tag == "At"@ {
        match int_field(r, "target"@) {
            Err(e) => Err(e),
            Ok(target) => match lookup(r, "display"@) {
                None => Err(ElementErrorV::MissingField("display"@)),
                Some(ValueV::Str(d)) => Ok(Some(ElemV::At { target, display: d })),
                Some(_) => Ok(
                    Some(ElemV::At { target, display: seq!['@'] + decimal_of(target as int) }),
                ),
            },
        }
    } else if tag == "Text"@ {
        match str_field(r, "text"@) {
            Err(e) => Err(e),
            Ok(content) => Ok(Some(ElemV::Text { content })),
        }
    } else if tag == "Dice"@ {
        match i32_field(r, "value"@) {
            Err(e) => Err(e),
            Ok(value) => Ok(Some(ElemV::Dice { value })),
        }
    } else if tag == "FingerGuessing"@ {
        match str_field(r, "choice"@) {
            Err(e) => Err(e),
            Ok(c) => match hand_named(c) {
                Some(hand) => Ok(Some(ElemV::FingerGuessing { hand })),
                None => Ok(None),
            },
        }
    } else if tag == "MarketFace"@ {
        match lookup(r, "raw"@) {
            None => Err(ElementErrorV::MissingField("raw"@)),
            Some(ValueV::Handle(Handle::MarketFace(h))) => Ok(Some(ElemV::MarketFace { handle: h })),
            Some(_) => Err(ElementErrorV::BadField("raw"@)),
        }
    } else if tag == "Face"@ {
        match i32_field(r, "index"@) {
            Err(e) => Err(e),
            Ok(index) => Ok(
                Some(
                    ElemV::Face {
                        index,
                        name: match lookup(r, "name"@) {
                            Some(ValueV::Str(n)) => n,
                            _ => Seq::empty(),
                        },
                    },
                ),
            ),
        }
    } else if tag == "Image"@ || tag == "FlashImage"@ {
        match lookup(r, "raw"@) {
            None => Err(ElementErrorV::MissingField("raw"@)),
            Some(ValueV::Handle(Handle::FriendImage(h))) => Ok(
                Some(
                    ElemV::Image {
                        flash: tag == "FlashImage"@,
                        source: ImageSource::Friend,
                        url: url_of(r),
                        handle: h,
                    },
                ),
            ),
            Some(ValueV::Handle(Handle::GroupImage(h))) => Ok(
                Some(
                    ElemV::Image {
                        flash: tag == "FlashImage"@,
                        source: ImageSource::Group,
                        url: url_of(r),
                        handle: h,
                    },
                ),
            ),
            Some(_) => Err(ElementErrorV::BadField("raw"@)),
        }
    } else if tag == "Reply"@ {
        match i32_field(r, "seq"@) {
            Err(e) => Err(e),
            Ok(seq) => match int_field(r, "sender"@) {
                Err(e) => Err(e),
                Ok(sender) => match i32_field(r, "time"@) {
                    Err(e) => Err(e),
                    Ok(time) => match str_field(r, "content"@) {
                        Err(e) => Err(e),
                        Ok(content) => Ok(Some(ElemV::Reply { seq, sender, time, content })),
                    },
                },
            },
        }
    } else if tag == "LightApp"@ {
        match str_field(r, "content"@) {
            Err(e) => Err(e),
            Ok(content) => Ok(Some(ElemV::LightApp { content })),
        }
    } else if tag == "ForwardCard"@ || tag == "RichMessage"@ {
        match i32_field(r, "service_id"@) {
            Err(e) => Err(e),
            Ok(service_id) => match str_field(r, "content"@) {
                Err(e) => Err(e),
                Ok(content) => Ok(Some(ElemV::RichMessage { service_id, content })),
            },
        }
    } else {
        Err(ElementErrorV::UnknownElement(tag))
    }
}

/// The image url of a record, empty when it has none.
pub open spec fn url_of(r: RecordV) -> Seq<char> {
    match lookup(r, "url"@) {
        Some(ValueV::Str(u)) => u,
        _ => Seq::empty(),
    }
}

pub open spec fn chain_view(c: Seq<Elem>) -> Seq<ElemV> {
    c.map_values(|e: Elem| e@)
}

/// A chain with `e` added: a reply goes first, anything else last.
pub open spec fn add_elem(c: Seq<ElemV>, e: ElemV) -> Seq<ElemV> {
    if e is Reply {
        seq![e] + c
    } else {
        c.push(e)
    }
}

/// The first value stored under `key`.
pub fn get_item<'a>(store: &'a Record, key: &str) -> (r: Option<&'a Value>)
    ensures
        match lookup(store@, key@) {
            Some(v) => r matches Some(x) && x@ == v,
            None => r is None,
        },
{
    let n = store.fields.len();
    let mut i: usize = 0;
    assert(store@.subrange(0, n as int) =~= store@);
    while i < n
        invariant
            n == store.fields@.len(),
            0 <= i <= n,
            lookup(store@, key@) == lookup(store@.subrange(i as int, n as int), key@),
        decreases n - i,
    {
        let rest = Ghost(store@.subrange(i as int, n as int));
        assert(rest@[0] == store@[i as int]);
        if text_is(store.fields[i].0.as_str(), key) {
            return Some(&store.fields[i].1);
        }
        assert(rest@.drop_first() =~= store@.subrange(i + 1, n as int));
        i = i + 1;
    }
    assert(store@.subrange(n as int, n as int).len() == 0);
    None
}

fn read_int(store: &Record, key: &str) -> (r: Result<i64, ElementError>)
    ensures
        match r {
            Ok(n) => int_field(store@, key@) == Ok::<i64, ElementErrorV>(n),
            Err(e) => int_field(store@, key@) == Err::<i64, ElementErrorV>(e@),
        },
{
    match get_item(store, key) {
        None => Err(ElementError::MissingField(owned(key))),
        Some(Value::Int(n)) => Ok(*n),
        Some(_) => Err(ElementError::BadField(owned(key))),
    }
}

fn read_i32(store: &Record, key: &str) -> (r: Result<i32, ElementError>)
    ensures
        match r {
            Ok(n) => i32_field(store@, key@) == Ok::<i32, ElementErrorV>(n),
            Err(e) => i32_field(store@, key@) == Err::<i32, ElementErrorV>(e@),
        },
{
    let n = match read_int(store, key) {
        Ok(v) => v,
        Err(e) => {
            return Err(e);
        },
    };
    if i32::MIN as i64 <= n && n <= i32::MAX as i64 {
        Ok(n as i32)
    } else {
        Err(ElementError::BadField(owned(key)))
    }
}

fn read_str(store: &Record, key: &str) -> (r: Result<String, ElementError>)
    ensures
        match r {
            Ok(s) => str_field(store@, key@) == Ok::<Seq<char>, ElementErrorV>(s@),
            Err(e) => str_field(store@, key@) == Err::<Seq<char>, ElementErrorV>(e@),
        },
{
    match get_item(store, key) {
        None => Err(ElementError::MissingField(owned(key))),
        Some(Value::Str(s)) => Ok(s.clone()),
        Some(_) => Err(ElementError::BadField(owned(key))),
    }
}

pub(crate) fn field(key: &str, value: Value) -> (r: (String, Value))
    ensures
        r.0@ == key@,
        r.1 == value,
{
    (owned(key), value)
}

pub(crate) fn tag(name: &str) -> (r: (String, Value))
    ensures
        r.0@ == "type"@,
        r.1@ == ValueV::Str(name@),
{
    (owned("type"), Value::Str(owned(name)))
}

fn hand_text(h: Hand) -> (r: &'static str)
    ensures
        r@ == hand_name(h),
{
    proof {
        reveal_strlit("Rock");
        reveal_strlit("Paper");
        reveal_strlit("Scissors");
    }
    match h {
        Hand::Rock => "Rock",
        Hand::Paper => "Paper",
        Hand::Scissors => "Scissors",
    }
}

fn handle_of_image(source: ImageSource, handle: u64) -> (r: Handle)
    ensures
        r == image_handle(source, handle),
{
    match source {
        ImageSource::Group => Handle::GroupImage(handle),
        ImageSource::Friend => Handle::FriendImage(handle),
    }
}

/// The record of an element; `None` for an element that consumers never see.
pub fn serialize_element(e: &Elem) -> (r: Option<Record>)
    ensures
        match r {
            Some(x) => record_of(e@) == Some(x@),
            None => record_of(e@) is None,
        },
{
    let mut fields: Vec<(String, Value)> = Vec::new();
    match e {
        Elem::At { target, display } => {
            if *target == 0 {
                fields.push(tag("AtAll"));
            } else {
                fields.push(tag("At"));
                fields.push(field("target", Value::Int(*target)));
                fields.push(field("display", Value::Str(display.clone())));
            }
        },
        Elem::Text { content } => {
            fields.push(tag("Text"));
            fields.push(field("text", Value::Str(content.clone())));
        },
        Elem::Dice { value } => {
            fields.push(tag("Dice"));
            fields.push(field("value", Value::Int(*value as i64)));
        },
        Elem::FingerGuessing { hand } => {
            fields.push(tag("FingerGuessing"));
            fields.push(field("choice", Value::Str(owned(hand_text(*hand)))));
        },
        Elem::Face { index, name } => {
            fields.push(tag("Face"));
            fields.push(field("index", Value::Int(*index as i64)));
            fields.push(field("name", Value::Str(name.clone())));
        },
        Elem::MarketFace { handle } => {
            fields.push(tag("MarketFace"));
            fields.push(field("raw", Value::Handle(Handle::MarketFace(*handle))));
        },
        Elem::Image { flash, source, url, handle } => {
            if *flash {
                fields.push(tag("FlashImage"));
            } else {
                fields.push(tag("Image"));
            }
            fields.push(field("url", Value::Str(url.clone())));
            fields.push(field("raw", Value::Handle(handle_of_image(*source, *handle))));
        },
        Elem::LightApp { content } => {
            fields.push(tag("LightApp"));
            fields.push(field("content", Value::Str(content.clone())));
        },
        Elem::RichMessage { service_id, content } => {
            fields.push(tag("RichMessage"));
            fields.push(field("service_id", Value::Int(*service_id as i64)));
            fields.push(field("content", Value::Str(content.clone())));
        },
        Elem::Reply { seq, sender, time, content } => {
            fields.push(tag("Reply"));
            fields.push(field("seq", Value::Int(*seq as i64)));
            fields.push(field("sender", Value::Int(*sender)));
            fields.push(field("time", Value::Int(*time as i64)));
            fields.push(field("content", Value::Str(content.clone())));
        },
        Elem::Other => {
            return None;
        },
        Elem::Unknown { debug } => {
            fields.push(tag("Unknown"));
            fields.push(field("raw", Value::Str(debug.clone())));
        },
    }
    let r = Record { fields };
    assert(record_of(e@) == Some(r@)) by {
        assert(record_of(e@)->Some_0 =~= r@);
    }
    Some(r)
}

/// Reads the element that a record of kind `ident` describes.
pub fn read_element(ident: &str, store: &Record) -> (r: Result<Option<Elem>, ElementError>)
    ensures
        match r {
            Ok(Some(e)) => parse_elem(ident@, store@) == Ok::<Option<ElemV>, ElementErrorV>(
                Some(e@),
            ),
            Ok(None) => parse_elem(ident@, store@) == Ok::<Option<ElemV>, ElementErrorV>(None),
            Err(x) => parse_elem(ident@, store@) == Err::<Option<ElemV>, ElementErrorV>(x@),
        },
{
    proof {
        reveal_strlit("AtAll");
        reveal_strlit("At");
        reveal_strlit("Text");
        reveal_strlit("Dice");
        reveal_strlit("FingerGuessing");
        reveal_strlit("MarketFace");
        reveal_strlit("Face");
        reveal_strlit("Image");
        reveal_strlit("FlashImage");
        reveal_strlit("Reply");
        reveal_strlit("LightApp");
        reveal_strlit("ForwardCard");
        reveal_strlit("RichMessage");
        reveal_strlit("@");
    }
    if text_is(ident, "AtAll") {
        Ok(Some(Elem::At { target: 0, display: owned("@全体成员") }))
    } else if text_is(ident, "At") {
        let target = match read_int(store, "target") {
            Ok(v) => v,
            Err(e) => {
                return Err(e);
            },
        };
        let display = match get_item(store, "display") {
            None => {
                return Err(ElementError::MissingField(owned("display")));
            },
            Some(Value::Str(d)) => d.clone(),
            Some(_) => {
                let digits = decimal_text(target);
                let d = owned("@").concat(digits.as_str());
                assert(d@ =~= seq!['@'] + decimal_of(target as int));
                d
            },
        };
        Ok(Some(Elem::At { target, display }))
    } else if text_is(ident, "Text") {
        let content = match read_str(store, "text") {
            Ok(v) => v,
            Err(e) => {
                return Err(e);
            },
        };
        Ok(Some(Elem::Text { content }))
    } else if text_is(ident, "Dice") {
        let value = match read_i32(store, "value") {
            Ok(v) => v,
            Err(e) => {
                return Err(e);
            },
        };
        Ok(Some(Elem::Dice { value }))
    } else if text_is(ident, "FingerGuessing") {
        let choice = match read_str(store, "choice") {
            Ok(v) => v,
            Err(e) => {
                return Err(e);
            },
        };
        proof {
            reveal_strlit("Rock");
            reveal_strlit("Paper");
            reveal_strlit("Scissors");
        }
        if text_is(choice.as_str(), "Rock") {
            Ok(Some(Elem::FingerGuessing { hand: Hand::Rock }))
        } else if text_is(choice.as_str(), "Paper") {
            Ok(Some(Elem::FingerGuessing { hand: Hand::Paper }))
        } else if text_is(choice.as_str(), "Scissors") {
            Ok(Some(Elem::FingerGuessing { hand: Hand::Scissors }))
        } else {
            Ok(None)
        }
    } else if text_is(ident, "MarketFace") {
        match get_item(store, "raw") {
            None => Err(ElementError::MissingField(owned("raw"))),
            Some(Value::Handle(Handle::MarketFace(h))) => Ok(Some(Elem::MarketFace { handle: *h })),
            Some(_) => Err(ElementError::BadField(owned("raw"))),
        }
    } else if text_is(ident, "Face") {
        let index = match read_i32(store, "index") {
            Ok(v) => v,
            Err(e) => {
                return Err(e);
            },
        };
        let name = match get_item(store, "name") {
            Some(Value::Str(n)) => n.clone(),
            _ => String::new(),
        };
        Ok(Some(Elem::Face { index, name }))
    } else if text_is(ident, "Image") || text_is(ident, "FlashImage") {
        let flash = text_is(ident, "FlashImage");
        let url = match get_item(store, "url") {
            Some(Value::Str(u)) => u.clone(),
            _ => String::new(),
        };
        match get_item(store, "raw") {
            None => Err(ElementError::MissingField(owned("raw"))),
            Some(Value::Handle(Handle::FriendImage(h))) => Ok(
                Some(Elem::Image { flash, source: ImageSource::Friend, url, handle: *h }),
            ),
            Some(Value::Handle(Handle::GroupImage(h))) => Ok(
                Some(Elem::Image { flash, source: ImageSource::Group, url, handle: *h }),
            ),
            Some(_) => Err(ElementError::BadField(owned("raw"))),
        }
    } else if text_is(ident, "Reply") {
        let seq = match read_i32(store, "seq") {
            Ok(v) => v,
            Err(e) => {
                return Err(e);
            },
        };
        let sender = match read_int(store, "sender") {
            Ok(v) => v,
            Err(e) => {
                return Err(e);
            },
        };
        let time = match read_i32(store, "time") {
            Ok(v) => v,
            Err(e) => {
                return Err(e);
            },
        };
        let content = match read_str(store, "content") {
            Ok(v) => v,
            Err(e) => {
                return Err(e);
            },
        };
        Ok(Some(Elem::Reply { seq, sender, time, content }))
    } else if text_is(ident, "LightApp") {
        let content = match read_str(store, "content") {
            Ok(v) => v,
            Err(e) => {
                return Err(e);
            },
        };
        Ok(Some(Elem::LightApp { content }))
    } else if text_is(ident, "ForwardCard") || text_is(ident, "RichMessage") {
        let service_id = match read_i32(store, "service_id") {
            Ok(v) => v,
            Err(e) => {
                return Err(e);
            },
        };
        let content = match read_str(store, "content") {
            Ok(v) => v,
            Err(e) => {
                return Err(e);
            },
        };
        Ok(Some(Elem::RichMessage { service_id, content }))
    } else {
        Err(ElementError::UnknownElement(owned(ident)))
    }
}

/// Reads the element that a record of kind `ident` describes into `chain`: a reply goes
/// first, anything else last; on an error the chain is left as it was.
pub fn deserialize_element(chain: &mut Vec<Elem>, ident: &str, store: &Record) -> (r: Result<
    (),
    ElementError,
>)
    ensures
        match parse_elem(ident@, store@) {
            Ok(Some(e)) => r is Ok && chain_view(final(chain)@) == add_elem(
                chain_view(old(chain)@),
                e,
            ),
            Ok(None) => r is Ok && final(chain)@ == old(chain)@,
            Err(x) => r matches Err(y) && y@ == x && final(chain)@ == old(chain)@,
        },
{
    match read_element(ident, store) {
        Ok(Some(e)) => {
            let ghost ev = e@;
            if matches!(e, Elem::Reply { .. }) {
                chain.insert(0, e);
                assert(chain_view(chain@) =~= seq![ev] + chain_view(old(chain)@));
            } else {
                chain.push(e);
                assert(chain_view(chain@) =~= chain_view(old(chain)@).push(ev));
            }
            Ok(())
        },
        Ok(None) => Ok(()),
        Err(x) => Err(x),
    }
}

/// The kind that a record names in its `type` field.
pub open spec fn record_type(r: RecordV) -> Result<Seq<char>, ElementErrorV> {
    match lookup(r, "type"@) {
        None => Err(ElementErrorV::MissingType),
        Some(ValueV::Str(t)) => Ok(t),
        Some(_) => Err(ElementErrorV::BadField("type"@)),
    }
}

pub open spec fn records_view(rs: Seq<Record>) -> Seq<RecordV> {
    rs.map_values(|r: Record| r@)
}

/// The chain that a list of records describes, read in order; the first error stops it.
pub open spec fn parse_chain(rs: Seq<RecordV>) -> Result<Seq<ElemV>, ElementErrorV>
    decreases rs.len(),
{
    if rs.len() == 0 {
        Ok(Seq::empty())
    } else {
        match parse_chain(rs.drop_last()) {
            Err(e) => Err(e),
            Ok(c) => match record_type(rs.last()) {
                Err(e) => Err(e),
                Ok(t) => match parse_elem(t, rs.last()) {
                    Err(e) => Err(e),
                    Ok(None) => Ok(c),
                    Ok(Some(e)) => Ok(add_elem(c, e)),
                },
            },
        }
    }
}

/// The records of a chain, leaving out elements that have none.
pub open spec fn records_of(es: Seq<ElemV>) -> Seq<RecordV>
    decreases es.len(),
{
    if es.len() == 0 {
        Seq::empty()
    } else {
        match record_of(es.last()) {
            Some(r) => records_of(es.drop_last()).push(r),
            None => records_of(es.drop_last()),
        }
    }
}

/// Once reading a prefix of the records fails, reading all of them fails the same way.
proof fn lemma_chain_error_sticks(rs: Seq<RecordV>, k: int)
    requires
        0 <= k <= rs.len(),
        parse_chain(rs.subrange(0, k)) is Err,
    ensures
        parse_chain(rs) == parse_chain(rs.subrange(0, k)),
    decreases rs.len() - k,
{
    if k == rs.len() {
        assert(rs.subrange(0, k) =~= rs);
    } else {
        assert(rs.drop_last().subrange(0, k) =~= rs.subrange(0, k));
        lemma_chain_error_sticks(rs.drop_last(), k);
    }
}

/// Reads a message chain from its records.
pub fn deserialize_message_chain(list: &Vec<Record>) -> (r: Result<Vec<Elem>, ElementError>)
    ensures
        match parse_chain(records_view(list@)) {
            Ok(c) => r matches Ok(v) && chain_view(v@) == c,
            Err(e) => r matches Err(x) && x@ == e,
        },
{
    let mut chain: Vec<Elem> = Vec::new();
    let n = list.len();
    let mut i: usize = 0;
    assert(chain_view(chain@) =~= Seq::<ElemV>::empty());
    while i < n
        invariant
            n == list@.len(),
            0 <= i <= n,
            parse_chain(records_view(list@).subrange(0, i as int)) == Ok::<
                Seq<ElemV>,
                ElementErrorV,
            >(chain_view(chain@)),
        decreases n - i,
    {
        let ghost prefix = records_view(list@).subrange(0, i as int + 1);
        assert(prefix.drop_last() =~= records_view(list@).subrange(0, i as int));
        assert(prefix.last() == list@[i as int]@);
        let rec = &list[i];
        proof {
            reveal_strlit("type");
        }
        let ident = match get_item(rec, "type") {
            None => {
                proof {
                    lemma_chain_error_sticks(records_view(list@), i + 1);
                }
                return Err(ElementError::MissingType);
            },
            Some(Value::Str(t)) => t,
            Some(_) => {
                proof {
                    lemma_chain_error_sticks(records_view(list@), i + 1);
                }
                return Err(ElementError::BadField(owned("type")));
            },
        };
        match deserialize_element(&mut chain, ident.as_str(), rec) {
            Ok(()) => {},
            Err(e) => {
                proof {
                    lemma_chain_error_sticks(records_view(list@), i + 1);
                }
                return Err(e);
            },
        }
        i = i + 1;
    }
    assert(records_view(list@).subrange(0, n as int) =~= records_view(list@));
    Ok(chain)
}

/// The records of a chain, in order, leaving out elements that consumers never see.
pub fn serialize_message_chain(chain: &Vec<Elem>) -> (r: Vec<Record>)
    ensures
        records_view(r@) == records_of(chain_view(chain@)),
{
    let mut out: Vec<Record> = Vec::new();
    let n = chain.len();
    let mut i: usize = 0;
    assert(records_view(out@) =~= Seq::<RecordV>::empty());
    while i < n
        invariant
            n == chain@.len(),
            0 <= i <= n,
            records_view(out@) == records_of(chain_view(chain@).subrange(0, i as int)),
        decreases n - i,
    {
        let ghost prefix = chain_view(chain@).subrange(0, i as int + 1);
        assert(prefix.drop_last() =~= chain_view(chain@).subrange(0, i as int));
        assert(prefix.last() == chain@[i as int]@);
        match serialize_element(&chain[i]) {
            Some(rec) => {
                let ghost before = out@;
                out.push(rec);
                assert(records_view(out@) =~= records_view(before).push(rec@));
            },
            None => {},
        }
        i = i + 1;
    }
    assert(chain_view(chain@).subrange(0, n as int) =~= chain_view(chain@));
    out
}

/// An element that can be sent: everything a consumer can see, where a mention of everyone
/// carries the standard text.
pub open spec fn sendable(e: ElemV) -> bool {
    match e {
        ElemV::Other => false,
        ElemV::Unknown { .. } => false,
        ElemV::At { target, display } => target != 0 || display == at_all_display(),
        _ => true,
    }
}

/// Facts that tell the field names and kinds of records apart.
proof fn lemma_record_texts()
    ensures
        "type"@.len() == 4 && "type"@[0] == 't' && "type"@[1] == 'y',
        "text"@.len() == 4 && "text"@[0] == 't' && "text"@[1] == 'e',
        "name"@.len() == 4 && "name"@[0] == 'n',
        "time"@.len() == 4 && "time"@[0] == 't' && "time"@[1] == 'i',
        "raw"@.len() == 3 && "raw"@[0] == 'r',
        "url"@.len() == 3 && "url"@[0] == 'u',
        "seq"@.len() == 3 && "seq"@[0] == 's',
        "value"@.len() == 5 && "value"@[0] == 'v',
        "index"@.len() == 5 && "index"@[0] == 'i',
        "target"@.len() == 6 && "target"@[0] == 't',
        "choice"@.len() == 6 && "choice"@[0] == 'c',
        "sender"@.len() == 6 && "sender"@[0] == 's',
        "display"@.len() == 7 && "display"@[0] == 'd',
        "content"@.len() == 7 && "content"@[0] == 'c',
        "service_id"@.len() == 10,
        "AtAll"@.len() == 5 && "AtAll"@[0] == 'A',
        "At"@.len() == 2,
        "Text"@.len() == 4 && "Text"@[0] == 'T',
        "Dice"@.len() == 4 && "Dice"@[0] == 'D',
        "Face"@.len() == 4 && "Face"@[0] == 'F',
        "Image"@.len() == 5 && "Image"@[0] == 'I',
        "Reply"@.len() == 5 && "Reply"@[0] == 'R',
        "FingerGuessing"@.len() == 14,
        "MarketFace"@.len() == 10 && "MarketFace"@[0] == 'M',
        "FlashImage"@.len() == 10 && "FlashImage"@[0] == 'F',
        "LightApp"@.len() == 8,
        "ForwardCard"@.len() == 11 && "ForwardCard"@[0] == 'F',
        "RichMessage"@.len() == 11 && "RichMessage"@[0] == 'R',
        "Rock"@.len() == 4,
        "Paper"@.len() == 5,
        "Scissors"@.len() == 8,
{
    reveal_strlit("type");
    reveal_strlit("target");
    reveal_strlit("display");
    reveal_strlit("text");
    reveal_strlit("value");
    reveal_strlit("choice");
    reveal_strlit("index");
    reveal_strlit("name");
    reveal_strlit("raw");
    reveal_strlit("url");
    reveal_strlit("content");
    reveal_strlit("service_id");
    reveal_strlit("seq");
    reveal_strlit("sender");
    reveal_strlit("time");
    reveal_strlit("AtAll");
    reveal_strlit("At");
    reveal_strlit("Text");
    reveal_strlit("Dice");
    reveal_strlit("FingerGuessing");
    reveal_strlit("MarketFace");
    reveal_strlit("Face");
    reveal_strlit("Image");
    reveal_strlit("FlashImage");
    reveal_strlit("Reply");
    reveal_strlit("LightApp");
    reveal_strlit("ForwardCard");
    reveal_strlit("RichMessage");
    reveal_strlit("Rock");
    reveal_strlit("Paper");
    reveal_strlit("Scissors");
}

/// Round trip: the record of a sendable element reads back as that same element.
pub proof fn lemma_element_round_trip(e: ElemV)
    requires
        sendable(e),
    ensures
        record_of(e) is Some,
        record_type(record_of(e)->Some_0) is Ok,
        parse_elem(record_type(record_of(e)->Some_0)->Ok_0, record_of(e)->Some_0) == Ok::<
            Option<ElemV>,
            ElementErrorV,
        >(Some(e)),
{
    reveal_with_fuel(lookup, 6);
    lemma_record_texts();
    let r = record_of(e)->Some_0;
    match e {
        ElemV::At { target, display } => {
            if target == 0 {
                assert(display == at_all_display());
            }
        },
        _ => {},
    }

}

/// A mention whose target is `0` is written as its own kind, `AtAll`, never as a mention of
/// target `0`.
pub proof fn lemma_at_everyone(display: Seq<char>)
    ensures
        record_of(ElemV::At { target: 0, display }) == Some(
            seq![("type"@, ValueV::Str("AtAll"@))],
        ),
        record_type(record_of(ElemV::At { target: 0, display })->Some_0) == Ok::<
            Seq<char>,
            ElementErrorV,
        >("AtAll"@),
        "AtAll"@ != "At"@,
{
    reveal_with_fuel(lookup, 2);
    reveal_strlit("AtAll");
    reveal_strlit("At");
    assert("AtAll"@.len() == 5);
    assert("At"@.len() == 2);
}

} // verus!
