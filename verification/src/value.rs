//! Values on their way across the boundary. A host value is marshaled into
//! a typed container in the form the native side reads; a container that
//! the native side filled is unmarshaled into a host value of the kind
//! that was asked for.

use crate::ownership::is_a;
use crate::translate::{c_string, c_text, from_c_string, from_glib, into_glib, to_c_string};
use crate::translate::{host_flag, native_flag};
use vstd::prelude::*;
use vstd::utf8::*;

verus! {

/// The runtime type tag of a value.
#[derive(Clone, Copy, Debug, PartialEq, Eq, Structural)]
pub enum Kind {
    Boolean,
    Int,
    UInt,
    Int64,
    UInt64,
    Str,
    StrList,
    Object,
    Boxed,
}

/// The native type tag of a boolean.
pub const TYPE_BOOLEAN: usize = 20;

/// The native type tag of a 32-bit signed integer.
pub const TYPE_INT: usize = 24;

/// The native type tag of a 32-bit unsigned integer.
pub const TYPE_UINT: usize = 28;

/// The native type tag of a 64-bit signed integer.
pub const TYPE_INT64: usize = 40;

/// The native type tag of a 64-bit unsigned integer.
pub const TYPE_UINT64: usize = 44;

/// The native type tag of a string.
pub const TYPE_STRING: usize = 64;

/// The native type tag that every record type derives from.
pub const TYPE_BOXED: usize = 72;

/// The native type tag that every object type derives from.
pub const TYPE_OBJECT: usize = 80;

/// The kind that a native type is carried as, if it is carried at all.
/// `strv_type` is the tag that the native side gave the list of strings
/// when it registered it, and `lineage` is the type with all the types it
/// derives from.
pub open spec fn kind_of_type(type_: usize, strv_type: usize, lineage: Seq<u64>) -> Option<Kind> {
    if type_ == TYPE_BOOLEAN {
        Some(Kind::Boolean)
    } else if type_ == TYPE_INT {
        Some(Kind::Int)
    } else if type_ == TYPE_UINT {
        Some(Kind::UInt)
    } else if type_ == TYPE_INT64 {
        Some(Kind::Int64)
    } else if type_ == TYPE_UINT64 {
        Some(Kind::UInt64)
    } else if type_ == TYPE_STRING {
        Some(Kind::Str)
    } else if type_ == strv_type {
        Some(Kind::StrList)
    } else if lineage.contains(TYPE_OBJECT as u64) {
        Some(Kind::Object)
    } else if lineage.contains(TYPE_BOXED as u64) {
        Some(Kind::Boxed)
    } else {
        None
    }
}

impl Kind {
    /// The kind that a native type is carried as.
    pub fn from_type(type_: usize, strv_type: usize, lineage: &[u64]) -> (kind: Option<Kind>)
        ensures
            kind == kind_of_type(type_, strv_type, lineage@),
    {
        if type_ == TYPE_BOOLEAN {
            Some(Kind::Boolean)
        } else if type_ == TYPE_INT {
            Some(Kind::Int)
        } else if type_ == TYPE_UINT {
            Some(Kind::UInt)
        } else if type_ == TYPE_INT64 {
            Some(Kind::Int64)
        } else if type_ == TYPE_UINT64 {
            Some(Kind::UInt64)
        } else if type_ == TYPE_STRING {
            Some(Kind::Str)
        } else if type_ == strv_type {
            Some(Kind::StrList)
        } else if is_a(lineage, TYPE_OBJECT as u64) {
            Some(Kind::Object)
        } else if is_a(lineage, TYPE_BOXED as u64) {
            Some(Kind::Boxed)
        } else {
            None
        }
    }
}

/// Why a container could not be turned into the host value asked for.
#[derive(Clone, Copy, Debug, PartialEq, Eq, Structural)]
pub enum ValueError {
    /// The container holds another kind than the one requested.
    TypeMismatch { actual: Kind, requested: Kind },
    /// The container holds text that is not UTF-8.
    InvalidText,
}

/// A value as the host holds it.
#[derive(Clone, Debug, PartialEq, Eq)]
pub enum Value {
    Boolean(bool),
    Int(i32),
    UInt(u32),
    Int64(i64),
    UInt64(u64),
    /// A string, or the absence of one.
    Str(Option<String>),
    StrList(Vec<String>),
    /// The address of a native object, zero for none.
    Object(usize),
    /// The address of a native record, zero for none.
    Boxed(usize),
}

/// A value as the native side holds it.
#[derive(Clone, Debug, PartialEq, Eq)]
pub enum Container {
    /// An integer flag: zero is false.
    Boolean(i32),
    Int(i32),
    UInt(u32),
    Int64(i64),
    UInt64(u64),
    /// A buffer that holds text up to its first NUL, or a null pointer.
    Str(Option<Vec<u8>>),
    /// One such buffer for each string.
    StrList(Vec<Vec<u8>>),
    Object(usize),
    Boxed(usize),
}

/// A host value, as contracts see it.
pub enum ValueView {
    Boolean(bool),
    Int(i32),
    UInt(u32),
    Int64(i64),
    UInt64(u64),
    Str(Option<Seq<char>>),
    StrList(Seq<Seq<char>>),
    Object(usize),
    Boxed(usize),
}

/// A container, as contracts see it.
pub enum ContainerView {
    Boolean(i32),
    Int(i32),
    UInt(u32),
    Int64(i64),
    UInt64(u64),
    Str(Option<Seq<u8>>),
    StrList(Seq<Seq<u8>>),
    Object(usize),
    Boxed(usize),
}

/// The texts of a run of host strings.
pub open spec fn text_views(list: Seq<String>) -> Seq<Seq<char>> {
    list.map_values(|s: String| s@)
}

/// The contents of a run of buffers.
pub open spec fn buffer_views(bufs: Seq<Vec<u8>>) -> Seq<Seq<u8>> {
    bufs.map_values(|b: Vec<u8>| b@)
}

impl View for Value {
    type V = ValueView;

    open spec fn view(&self) -> ValueView {
        match *self {
            Value::Boolean(b) => ValueView::Boolean(b),
            Value::Int(n) => ValueView::Int(n),
            Value::UInt(n) => ValueView::UInt(n),
            Value::Int64(n) => ValueView::Int64(n),
            Value::UInt64(n) => ValueView::UInt64(n),
            Value::Str(Some(s)) => ValueView::Str(Some(s@)),
            Value::Str(None) => ValueView::Str(None),
            Value::StrList(list) => ValueView::StrList(text_views(list@)),
            Value::Object(addr) => ValueView::Object(addr),
            Value::Boxed(addr) => ValueView::Boxed(addr),
        }
    }
}

impl View for Container {
    type V = ContainerView;

    open spec fn view(&self) -> ContainerView {
        match *self {
            Container::Boolean(n) => ContainerView::Boolean(n),
            Container::Int(n) => ContainerView::Int(n),
            Container::UInt(n) => ContainerView::UInt(n),
            Container::Int64(n) => ContainerView::Int64(n),
            Container::UInt64(n) => ContainerView::UInt64(n),
            Container::Str(Some(buf)) => ContainerView::Str(Some(buf@)),
            Container::Str(None) => ContainerView::Str(None),
            Container::StrList(bufs) => ContainerView::StrList(buffer_views(bufs@)),
            Container::Object(addr) => ContainerView::Object(addr),
            Container::Boxed(addr) => ContainerView::Boxed(addr),
        }
    }
}

/// The kind of a host value.
pub open spec fn kind_of(value: ValueView) -> Kind {
    match value {
        ValueView::Boolean(_) => Kind::Boolean,
        ValueView::Int(_) => Kind::Int,
        ValueView::UInt(_) => Kind::UInt,
        ValueView::Int64(_) => Kind::Int64,
        ValueView::UInt64(_) => Kind::UInt64,
        ValueView::Str(_) => Kind::Str,
        ValueView::StrList(_) => Kind::StrList,
        ValueView::Object(_) => Kind::Object,
        ValueView::Boxed(_) => Kind::Boxed,
    }
}

/// The kind that a container is typed for.
pub open spec fn container_kind(container: ContainerView) -> Kind {
    match container {
        ContainerView::Boolean(_) => Kind::Boolean,
        ContainerView::Int(_) => Kind::Int,
        ContainerView::UInt(_) => Kind::UInt,
        ContainerView::Int64(_) => Kind::Int64,
        ContainerView::UInt64(_) => Kind::UInt64,
        ContainerView::Str(_) => Kind::Str,
        ContainerView::StrList(_) => Kind::StrList,
        ContainerView::Object(_) => Kind::Object,
        ContainerView::Boxed(_) => Kind::Boxed,
    }
}

/// The container that the native side is handed to fill: typed for
/// `kind`, and holding nothing yet.
pub open spec fn empty_container(kind: Kind) -> ContainerView {
    match kind {
        Kind::Boolean => ContainerView::Boolean(0),
        Kind::Int => ContainerView::Int(0),
        Kind::UInt => ContainerView::UInt(0),
        Kind::Int64 => ContainerView::Int64(0),
        Kind::UInt64 => ContainerView::UInt64(0),
        Kind::Str => ContainerView::Str(None),
        Kind::StrList => ContainerView::StrList(Seq::empty()),
        Kind::Object => ContainerView::Object(0),
        Kind::Boxed => ContainerView::Boxed(0),
    }
}

/// The buffer that carries a host string: its UTF-8 bytes and a NUL.
pub open spec fn marshaled_text(text: Seq<char>) -> Seq<u8> {
    c_string(encode_utf8(text))
}

/// The host string that a native buffer carries: the bytes before its
/// first NUL, read as UTF-8. None if they are not UTF-8.
pub open spec fn text_of(buf: Seq<u8>) -> Option<Seq<char>> {
    if valid_utf8(c_text(buf)) {
        Some(decode_utf8(c_text(buf)))
    } else {
        None
    }
}

/// The buffers that carry a list of host strings, one for each.
pub open spec fn marshaled_texts(texts: Seq<Seq<char>>) -> Seq<Seq<u8>> {
    texts.map_values(|t: Seq<char>| marshaled_text(t))
}

/// The host strings that a list of buffers carries. None if one of them
/// holds bytes that are not UTF-8.
pub open spec fn texts_of(bufs: Seq<Seq<u8>>) -> Option<Seq<Seq<char>>> {
    if forall|i: int| 0 <= i < bufs.len() ==> (#[trigger] text_of(bufs[i])) is Some {
        Some(bufs.map_values(|b: Seq<u8>| text_of(b).unwrap()))
    } else {
        None
    }
}

/// The container that carries a host value.
pub open spec fn marshaled(value: ValueView) -> ContainerView {
    match value {
        ValueView::Boolean(b) => ContainerView::Boolean(native_flag(b) as i32),
        ValueView::Int(n) => ContainerView::Int(n),
        ValueView::UInt(n) => ContainerView::UInt(n),
        ValueView::Int64(n) => ContainerView::Int64(n),
        ValueView::UInt64(n) => ContainerView::UInt64(n),
        ValueView::Str(Some(text)) => ContainerView::Str(Some(marshaled_text(text))),
        ValueView::Str(None) => ContainerView::Str(None),
        ValueView::StrList(texts) => ContainerView::StrList(marshaled_texts(texts)),
        ValueView::Object(addr) => ContainerView::Object(addr),
        ValueView::Boxed(addr) => ContainerView::Boxed(addr),
    }
}

/// The host value that a container carries, read as the kind `requested`.
pub open spec fn unmarshaled(container: ContainerView, requested: Kind) -> Result<
    ValueView,
    ValueError,
> {
    if container_kind(container) != requested {
        Err(ValueError::TypeMismatch { actual: container_kind(container), requested })
    } else {
        match container {
            ContainerView::Boolean(n) => Ok(ValueView::Boolean(host_flag(n as int))),
            ContainerView::Int(n) => Ok(ValueView::Int(n)),
            ContainerView::UInt(n) => Ok(ValueView::UInt(n)),
            ContainerView::Int64(n) => Ok(ValueView::Int64(n)),
            ContainerView::UInt64(n) => Ok(ValueView::UInt64(n)),
            ContainerView::Str(None) => Ok(ValueView::Str(None)),
            ContainerView::Str(Some(buf)) => match text_of(buf) {
                Some(text) => Ok(ValueView::Str(Some(text))),
                None => Err(ValueError::InvalidText),
            },
            ContainerView::StrList(bufs) => match texts_of(bufs) {
                Some(texts) => Ok(ValueView::StrList(texts)),
                None => Err(ValueError::InvalidText),
            },
            ContainerView::Object(addr) => Ok(ValueView::Object(addr)),
            ContainerView::Boxed(addr) => Ok(ValueView::Boxed(addr)),
        }
    }
}

/// Whether a host value reaches the native side whole: text is cut at
/// its first NUL byte, so text that holds one does not.
pub open spec fn transportable(value: ValueView) -> bool {
    match value {
        ValueView::Str(Some(text)) => !encode_utf8(text).contains(0),
        ValueView::StrList(texts) => forall|i: int|
            0 <= i < texts.len() ==> !(#[trigger] encode_utf8(texts[i])).contains(0),
        _ => true,
    }
}

/// A host string that holds no NUL byte reads back from its buffer as
/// it was.
pub proof fn lemma_text_round_trip(text: Seq<char>)
    requires
        !encode_utf8(text).contains(0),
    ensures
        text_of(marshaled_text(text)) == Some(text),
{
    crate::translate::lemma_c_string_round_trip(encode_utf8(text));
    encode_utf8_valid_utf8(text);
    encode_utf8_decode_utf8(text);
}

/// A value that is marshaled into a container and read back from it as
/// its own kind comes back as it was. This holds of every boolean,
/// integer and address, of the absent string, and of strings and lists
/// of strings that hold no NUL byte.
pub proof fn lemma_value_round_trip(value: ValueView)
    requires
        transportable(value),
    ensures
        container_kind(marshaled(value)) == kind_of(value),
        unmarshaled(marshaled(value), kind_of(value)) == Ok::<ValueView, ValueError>(value),
{
    match value {
        ValueView::Str(Some(text)) => {
            lemma_text_round_trip(text);
        },
        ValueView::StrList(texts) => {
            let bufs = marshaled_texts(texts);
            assert forall|i: int| 0 <= i < bufs.len() implies (#[trigger] text_of(bufs[i]))
                == Some(texts[i]) by {
                lemma_text_round_trip(texts[i]);
            }
            assert(texts_of(bufs).unwrap() =~= texts);
        },
        _ => {},
    }
}

/// A container read as another kind than it is typed for is turned
/// down, and the error names both kinds.
pub proof fn lemma_wrong_kind_is_refused(container: ContainerView, requested: Kind)
    requires
        container_kind(container) != requested,
    ensures
        unmarshaled(container, requested) == Err::<ValueView, ValueError>(
            ValueError::TypeMismatch { actual: container_kind(container), requested },
        ),
{
}

/// `String::from_utf8` of std, with its error dropped: the text that
/// `bytes` encode, or nothing if they are not UTF-8. The contract takes
/// this from std's documentation and is not proved here.
#[verifier::external_body]
fn text_from_utf8(bytes: Vec<u8>) -> (text: Option<String>)
    ensures
        text is Some <==> valid_utf8(bytes@),
        text matches Some(t) ==> t@ == decode_utf8(bytes@),
{
    String::from_utf8(bytes).ok()
}

/// Reads the host string out of a native buffer.
pub fn read_text(buf: &[u8]) -> (text: Option<String>)
    ensures
        text is Some <==> text_of(buf@) is Some,
        text matches Some(t) ==> Some(t@) == text_of(buf@),
{
    text_from_utf8(from_c_string(buf))
}

/// Writes a host string into a fresh native buffer.
pub fn write_text(text: &str) -> (buf: Vec<u8>)
    ensures
        buf@ == marshaled_text(text@),
{
    to_c_string(text.as_bytes())
}

impl Value {
    /// The kind of the value.
    pub fn kind(&self) -> (kind: Kind)
        ensures
            kind == kind_of(self@),
    {
        match self {
            Value::Boolean(_) => Kind::Boolean,
            Value::Int(_) => Kind::Int,
            Value::UInt(_) => Kind::UInt,
            Value::Int64(_) => Kind::Int64,
            Value::UInt64(_) => Kind::UInt64,
            Value::Str(_) => Kind::Str,
            Value::StrList(_) => Kind::StrList,
            Value::Object(_) => Kind::Object,
            Value::Boxed(_) => Kind::Boxed,
        }
    }

    /// Builds the container that carries the value to the native side.
    pub fn marshal(&self) -> (container: Container)
        ensures
            container@ == marshaled(self@),
    {
        match self {
            Value::Boolean(b) => Container::Boolean(into_glib(*b)),
            Value::Int(n) => Container::Int(*n),
            Value::UInt(n) => Container::UInt(*n),
            Value::Int64(n) => Container::Int64(*n),
            Value::UInt64(n) => Container::UInt64(*n),
            Value::Str(Some(s)) => Container::Str(Some(write_text(s.as_str()))),
            Value::Str(None) => Container::Str(None),
            Value::StrList(list) => {
                let mut bufs: Vec<Vec<u8>> = Vec::new();
                let mut i: usize = 0;
                while i < list.len()
                    invariant
                        i <= list.len(),
                        bufs@.len() == i,
                        forall|j: int| 0 <= j < i ==> bufs@[j]@ == marshaled_text(list@[j]@),
                    decreases list.len() - i,
                {
                    bufs.push(write_text(list[i].as_str()));
                    i += 1;
                }
                assert(buffer_views(bufs@) =~= marshaled_texts(text_views(list@)));
                Container::StrList(bufs)
            },
            Value::Object(addr) => Container::Object(*addr),
            Value::Boxed(addr) => Container::Boxed(*addr),
        }
    }
}

impl Container {
    /// The kind that the container is typed for.
    pub fn kind(&self) -> (kind: Kind)
        ensures
            kind == container_kind(self@),
    {
        match self {
            Container::Boolean(_) => Kind::Boolean,
            Container::Int(_) => Kind::Int,
            Container::UInt(_) => Kind::UInt,
            Container::Int64(_) => Kind::Int64,
            Container::UInt64(_) => Kind::UInt64,
            Container::Str(_) => Kind::Str,
            Container::StrList(_) => Kind::StrList,
            Container::Object(_) => Kind::Object,
            Container::Boxed(_) => Kind::Boxed,
        }
    }

    /// A container typed for `kind` that holds nothing yet, for the
    /// native side to fill.
    pub fn empty(kind: Kind) -> (container: Container)
        ensures
            container@ == empty_container(kind),
    {
        match kind {
            Kind::Boolean => Container::Boolean(0),
            Kind::Int => Container::Int(0),
            Kind::UInt => Container::UInt(0),
            Kind::Int64 => Container::Int64(0),
            Kind::UInt64 => Container::UInt64(0),
            Kind::Str => Container::Str(None),
            Kind::StrList => {
                let bufs: Vec<Vec<u8>> = Vec::new();
                assert(buffer_views(bufs@) =~= Seq::<Seq<u8>>::empty());
                Container::StrList(bufs)
            },
            Kind::Object => Container::Object(0),
            Kind::Boxed => Container::Boxed(0),
        }
    }

    /// Reads the host value out of the container, as the kind `requested`.
    pub fn unmarshal(&self, requested: Kind) -> (value: Result<Value, ValueError>)
        ensures
            value is Ok <==> unmarshaled(self@, requested) is Ok,
            value matches Ok(v) ==> Ok::<ValueView, ValueError>(v@) == unmarshaled(
                self@,
                requested,
            ),
            value matches Err(e) ==> Err::<ValueView, ValueError>(e) == unmarshaled(
                self@,
                requested,
            ),
    {
        let actual = self.kind();
        if actual != requested {
            return Err(ValueError::TypeMismatch { actual, requested });
        }
        match self {
            Container::Boolean(n) => Ok(Value::Boolean(from_glib(*n))),
            Container::Int(n) => Ok(Value::Int(*n)),
            Container::UInt(n) => Ok(Value::UInt(*n)),
            Container::Int64(n) => Ok(Value::Int64(*n)),
            Container::UInt64(n) => Ok(Value::UInt64(*n)),
            Container::Str(None) => Ok(Value::Str(None)),
            Container::Str(Some(buf)) => match read_text(buf.as_slice()) {
                Some(text) => Ok(Value::Str(Some(text))),
                None => Err(ValueError::InvalidText),
            },
            Container::StrList(bufs) => {
                let ghost views = buffer_views(bufs@);
                let mut texts: Vec<String> = Vec::new();
                let mut i: usize = 0;
                while i < bufs.len()
                    invariant
                        i <= bufs.len(),
                        texts@.len() == i,
                        views == buffer_views(bufs@),
                        self@ == ContainerView::StrList(views),
                        requested == Kind::StrList,
                        forall|j: int|
                            0 <= j < i ==> Some(texts@[j]@) == #[trigger] text_of(views[j]),
                    decreases bufs.len() - i,
                {
                    match read_text(bufs[i].as_slice()) {
                        Some(text) => {
                            texts.push(text);
                        },
                        None => {
                            assert(text_of(views[i as int]) is None);
                            assert(texts_of(views) is None);
                            return Err(ValueError::InvalidText);
                        },
                    }
                    i += 1;
                }
                assert(texts_of(views) is Some);
                assert(text_views(texts@) =~= texts_of(views).unwrap());
                Ok(Value::StrList(texts))
            },
            Container::Object(addr) => Ok(Value::Object(*addr)),
            Container::Boxed(addr) => Ok(Value::Boxed(*addr)),
        }
    }
}

} // verus!
