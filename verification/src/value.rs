//! Tag values, tags and attached pictures, each with its mathematical model.

use vstd::prelude::*;
use vstd::string::StringExecFns;
use crate::keys::{ColorMode, Size, StandardTagKey, StandardVisualKey};
use crate::text::{decimal, push_char, push_decimal};

verus! {

/// Copies a byte vector.
pub fn clone_bytes(bytes: &Vec<u8>) -> (copy: Vec<u8>)
    ensures
        copy@ == bytes@,
{
    let mut copy: Vec<u8> = Vec::new();
    let mut i: usize = 0;
    while i < bytes.len()
        invariant
            i <= bytes.len(),
            copy@ == bytes@.take(i as int),
        decreases bytes.len() - i,
    {
        copy.push(bytes[i]);
        assert(bytes@.take(i as int).push(bytes@[i as int]) =~= bytes@.take(i + 1));
        i += 1;
    }
    assert(bytes@.take(bytes.len() as int) =~= bytes@);
    copy
}

/// Copies a list of strings, such as the components of a path.
pub fn clone_strings(strings: &Vec<String>) -> (copy: Vec<String>)
    ensures
        copy.deep_view() == strings.deep_view(),
{
    let mut copy: Vec<String> = Vec::new();
    let mut i: usize = 0;
    while i < strings.len()
        invariant
            i <= strings.len(),
            copy.len() == i,
            forall|j: int| 0 <= j < i ==> copy@[j]@ == strings@[j]@,
        decreases strings.len() - i,
    {
        copy.push(strings[i].clone());
        i += 1;
    }
    assert(copy.deep_view() =~= strings.deep_view());
    copy
}

/// The decimal numeral of `n`, with a minus sign if it is negative.
pub open spec fn signed_decimal(n: int) -> Seq<char> {
    if n < 0 {
        seq!['-'] + decimal((-n) as nat)
    } else {
        decimal(n as nat)
    }
}

/// Appends the decimal numeral of `n` to `out`.
pub fn push_signed_decimal(out: &mut String, n: i64)
    ensures
        final(out)@ == old(out)@ + signed_decimal(n as int),
{
    if n < 0 {
        push_char(out, '-');
        let magnitude: u64 = if n == i64::MIN {
            9_223_372_036_854_775_808u64
        } else {
            (-n) as u64
        };
        push_decimal(out, magnitude);
        assert(final(out)@ =~= old(out)@ + signed_decimal(n as int));
    } else {
        push_decimal(out, n as u64);
    }
}

/// The model of a [`Value`].
pub enum ValueModel {
    Binary(Seq<u8>),
    Boolean(bool),
    Flag,
    Float(Seq<char>),
    SignedInt(i64),
    Text(Seq<char>),
    UnsignedInt(u64),
}

impl ValueModel {
    /// The text a value is shown as.
    pub open spec fn text(self) -> Seq<char> {
        match self {
            ValueModel::Binary(_) => "Binary(...)"@,
            ValueModel::Boolean(b) => if b {
                "true"@
            } else {
                "false"@
            },
            ValueModel::Flag => "Flag"@,
            ValueModel::Float(t) => t,
            ValueModel::SignedInt(i) => signed_decimal(i as int),
            ValueModel::Text(s) => s,
            ValueModel::UnsignedInt(u) => decimal(u as nat),
        }
    }
}

/// The value of a tag. A floating-point value is held as its shortest
/// decimal text that reads back as the same number.
#[derive(Debug)]
pub enum Value {
    Binary(Vec<u8>),
    Boolean(bool),
    Flag,
    Float(String),
    SignedInt(i64),
    String(String),
    UnsignedInt(u64),
}

impl View for Value {
    type V = ValueModel;

    open spec fn view(&self) -> ValueModel {
        match self {
            Value::Binary(b) => ValueModel::Binary(b@),
            Value::Boolean(b) => ValueModel::Boolean(*b),
            Value::Flag => ValueModel::Flag,
            Value::Float(t) => ValueModel::Float(t@),
            Value::SignedInt(i) => ValueModel::SignedInt(*i),
            Value::String(s) => ValueModel::Text(s@),
            Value::UnsignedInt(u) => ValueModel::UnsignedInt(*u),
        }
    }
}

impl DeepView for Value {
    type V = ValueModel;

    open spec fn deep_view(&self) -> ValueModel {
        self@
    }
}

impl Clone for Value {
    fn clone(&self) -> (copy: Self)
        ensures
            copy@ == self@,
    {
        match self {
            Value::Binary(b) => Value::Binary(clone_bytes(b)),
            Value::Boolean(b) => Value::Boolean(*b),
            Value::Flag => Value::Flag,
            Value::Float(t) => Value::Float(t.clone()),
            Value::SignedInt(i) => Value::SignedInt(*i),
            Value::String(s) => Value::String(s.clone()),
            Value::UnsignedInt(u) => Value::UnsignedInt(*u),
        }
    }
}

impl Value {
    /// The text this value is shown as.
    pub fn text(&self) -> (text: String)
        ensures
            text@ == self@.text(),
    {
        let mut text = String::new();
        match self {
            Value::Binary(_) => {
                text.append("Binary(...)");
            },
            Value::Boolean(b) => {
                if *b {
                    text.append("true");
                } else {
                    text.append("false");
                }
            },
            Value::Flag => {
                text.append("Flag");
            },
            Value::Float(t) => {
                text.append(t.as_str());
            },
            Value::SignedInt(i) => {
                push_signed_decimal(&mut text, *i);
            },
            Value::String(s) => {
                text.append(s.as_str());
            },
            Value::UnsignedInt(u) => {
                push_decimal(&mut text, *u);
            },
        }
        assert(text@ =~= self@.text());
        text
    }
}

/// The model of a [`Tag`].
pub struct TagModel {
    pub std_key: Option<StandardTagKey>,
    pub key: Seq<char>,
    pub value: ValueModel,
}

/// One key and value read from a container, with the standard key the
/// container's key maps to, if there is one.
#[derive(Debug)]
pub struct Tag {
    pub std_key: Option<StandardTagKey>,
    pub key: String,
    pub value: Value,
}

impl View for Tag {
    type V = TagModel;

    open spec fn view(&self) -> TagModel {
        TagModel { std_key: self.std_key, key: self.key@, value: self.value@ }
    }
}

impl DeepView for Tag {
    type V = TagModel;

    open spec fn deep_view(&self) -> TagModel {
        self@
    }
}

impl Clone for Tag {
    fn clone(&self) -> (copy: Self)
        ensures
            copy@ == self@,
    {
        Tag { std_key: self.std_key, key: self.key.clone(), value: self.value.clone() }
    }
}

/// Copies a list of tags.
pub fn clone_tags(tags: &Vec<Tag>) -> (copy: Vec<Tag>)
    ensures
        copy.deep_view() == tags.deep_view(),
{
    let mut copy: Vec<Tag> = Vec::new();
    let mut i: usize = 0;
    while i < tags.len()
        invariant
            i <= tags.len(),
            copy.len() == i,
            forall|j: int| 0 <= j < i ==> copy@[j]@ == tags@[j]@,
        decreases tags.len() - i,
    {
        copy.push(tags[i].clone());
        i += 1;
    }
    assert(copy.deep_view() =~= tags.deep_view());
    copy
}

/// The model of a [`Visual`].
pub struct VisualModel {
    pub media_type: Seq<char>,
    pub dimensions: Option<Size>,
    pub bits_per_pixel: Option<u32>,
    pub color_mode: Option<ColorMode>,
    pub usage: Option<StandardVisualKey>,
    pub tags: Seq<TagModel>,
    pub data: Seq<u8>,
}

/// A picture attached to a song, such as its cover.
#[derive(Debug)]
pub struct Visual {
    pub media_type: String,
    pub dimensions: Option<Size>,
    pub bits_per_pixel: Option<u32>,
    pub color_mode: Option<ColorMode>,
    pub usage: Option<StandardVisualKey>,
    pub tags: Vec<Tag>,
    pub data: Vec<u8>,
}

impl View for Visual {
    type V = VisualModel;

    open spec fn view(&self) -> VisualModel {
        VisualModel {
            media_type: self.media_type@,
            dimensions: self.dimensions,
            bits_per_pixel: self.bits_per_pixel,
            color_mode: self.color_mode,
            usage: self.usage,
            tags: self.tags.deep_view(),
            data: self.data@,
        }
    }
}

impl DeepView for Visual {
    type V = VisualModel;

    open spec fn deep_view(&self) -> VisualModel {
        self@
    }
}

impl Clone for Visual {
    fn clone(&self) -> (copy: Self)
        ensures
            copy@ == self@,
    {
        Visual {
            media_type: self.media_type.clone(),
            dimensions: self.dimensions,
            bits_per_pixel: self.bits_per_pixel,
            color_mode: self.color_mode,
            usage: self.usage,
            tags: clone_tags(&self.tags),
            data: clone_bytes(&self.data),
        }
    }
}

/// The data of the first picture in `visuals` that is a front cover.
pub open spec fn front_cover_of(visuals: Seq<VisualModel>) -> Option<Seq<u8>>
    decreases visuals.len(),
{
    if visuals.len() == 0 {
        None
    } else if visuals[0].usage == Some(StandardVisualKey::FrontCover) {
        Some(visuals[0].data)
    } else {
        front_cover_of(visuals.drop_first())
    }
}

/// What a container says about a song besides its audio: here, its pictures.
#[derive(Debug)]
pub struct Metadata {
    pub visuals: Vec<Visual>,
}

impl View for Metadata {
    type V = Seq<VisualModel>;

    open spec fn view(&self) -> Seq<VisualModel> {
        self.visuals.deep_view()
    }
}

impl DeepView for Metadata {
    type V = Seq<VisualModel>;

    open spec fn deep_view(&self) -> Seq<VisualModel> {
        self@
    }
}

impl Clone for Metadata {
    fn clone(&self) -> (copy: Self)
        ensures
            copy@ == self@,
    {
        let mut visuals: Vec<Visual> = Vec::new();
        let mut i: usize = 0;
        while i < self.visuals.len()
            invariant
                i <= self.visuals.len(),
                visuals.len() == i,
                forall|j: int| 0 <= j < i ==> visuals@[j]@ == self.visuals@[j]@,
            decreases self.visuals.len() - i,
        {
            visuals.push(self.visuals[i].clone());
            i += 1;
        }
        assert(visuals.deep_view() =~= self.visuals.deep_view());
        Metadata { visuals }
    }
}

impl Metadata {
    /// The bytes of the front cover: the first picture whose usage says so.
    pub fn front_cover(&self) -> (cover: Option<&Vec<u8>>)
        ensures
            match cover {
                Some(data) => front_cover_of(self@) == Some(data@),
                None => front_cover_of(self@) is None,
            },
    {
        let mut i: usize = 0;
        assert(self@.skip(0) =~= self@);
        while i < self.visuals.len()
            invariant
                i <= self.visuals.len(),
                front_cover_of(self@) == front_cover_of(self@.skip(i as int)),
            decreases self.visuals.len() - i,
        {
            let visual = &self.visuals[i];
            assert(self@.skip(i as int)[0] == visual@);
            let found = match visual.usage {
                Some(StandardVisualKey::FrontCover) => true,
                _ => false,
            };
            if found {
                return Some(&visual.data);
            }
            assert(self@.skip(i as int).drop_first() =~= self@.skip(i + 1));
            i += 1;
        }
        None
    }
}

} // verus!
