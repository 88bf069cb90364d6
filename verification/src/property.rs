//! Access to a named property of a native object whose properties the
//! host does not know statically. The host asks by name and kind; what the
//! native side reports of the name decides whether a container is sent at
//! all, and what comes back is read as the kind that was asked for.

use crate::translate::{c_string, to_c_string};
use crate::value::{empty_container, kind_of, marshaled, transportable, unmarshaled};
use crate::value::{Container, ContainerView, Kind, Value, ValueError, ValueView};
use vstd::prelude::*;
use vstd::string::*;
use vstd::utf8::*;

verus! {

/// What the native side reports of a property name.
#[derive(Clone, Copy, Debug, PartialEq, Eq, Structural)]
pub enum Lookup {
    /// The object has no property of that name.
    Missing,
    /// The object has the property, of this kind and with these rights.
    Found { kind: Kind, readable: bool, writable: bool },
}

/// The flag of a property that can be read.
pub const PARAM_READABLE: u32 = 1;

/// The flag of a property that can be written.
pub const PARAM_WRITABLE: u32 = 2;

/// The flag of a property that can be written only while its object is
/// made.
pub const PARAM_CONSTRUCT_ONLY: u32 = 8;

/// What the flags of a property of kind `kind` say of it: it can be read
/// if it is readable, and written if it is writable at any time.
pub open spec fn found_with(kind: Kind, flags: u32) -> Lookup {
    Lookup::Found {
        kind,
        readable: flags & PARAM_READABLE != 0,
        writable: flags & PARAM_WRITABLE != 0 && flags & PARAM_CONSTRUCT_ONLY == 0,
    }
}

impl Lookup {
    /// Reads the rights of a property off the flags that the native side
    /// keeps for it.
    pub fn from_flags(kind: Kind, flags: u32) -> (found: Lookup)
        ensures
            found == found_with(kind, flags),
    {
        Lookup::Found {
            kind,
            readable: flags & PARAM_READABLE != 0,
            writable: flags & PARAM_WRITABLE != 0 && flags & PARAM_CONSTRUCT_ONLY == 0,
        }
    }
}

/// Why a property could not be read or written.
#[derive(Clone, Copy, Debug, PartialEq, Eq, Structural)]
pub enum PropertyError {
    /// The object has no property of that name.
    NoSuchProperty,
    /// The property cannot be written.
    ReadOnly,
    /// The property cannot be read.
    WriteOnly,
    /// The property, or the value offered for it, is of another kind than
    /// the one asked for.
    TypeMismatch { actual: Kind, requested: Kind },
    /// The property holds text that is not UTF-8.
    InvalidText,
}

/// The property error that stands for a value error.
pub open spec fn lifted(error: ValueError) -> PropertyError {
    match error {
        ValueError::TypeMismatch { actual, requested } => PropertyError::TypeMismatch {
            actual,
            requested,
        },
        ValueError::InvalidText => PropertyError::InvalidText,
    }
}

/// The container to hand to the native side for a read of a property of
/// kind `kind`, or the reason why none is handed over.
pub open spec fn get_plan(kind: Kind, found: Lookup) -> Result<ContainerView, PropertyError> {
    match found {
        Lookup::Missing => Err(PropertyError::NoSuchProperty),
        Lookup::Found { kind: actual, readable, writable } => {
            if !readable {
                Err(PropertyError::WriteOnly)
            } else if actual != kind {
                Err(PropertyError::TypeMismatch { actual, requested: kind })
            } else {
                Ok(empty_container(kind))
            }
        },
    }
}

/// The host value in a container that the native side filled for a read of
/// a property of kind `kind`.
pub open spec fn get_result(kind: Kind, filled: ContainerView) -> Result<ValueView, PropertyError> {
    match unmarshaled(filled, kind) {
        Ok(value) => Ok(value),
        Err(error) => Err(lifted(error)),
    }
}

/// The container to hand to the native side for a write of `value` to a
/// property of kind `kind`, or the reason why none is handed over.
pub open spec fn set_plan(kind: Kind, value: ValueView, found: Lookup) -> Result<
    ContainerView,
    PropertyError,
> {
    match found {
        Lookup::Missing => Err(PropertyError::NoSuchProperty),
        Lookup::Found { kind: actual, readable, writable } => {
            if !writable {
                Err(PropertyError::ReadOnly)
            } else if actual != kind {
                Err(PropertyError::TypeMismatch { actual, requested: kind })
            } else if kind_of(value) != kind {
                Err(PropertyError::TypeMismatch { actual: kind_of(value), requested: kind })
            } else {
                Ok(marshaled(value))
            }
        },
    }
}

/// A write to a property that the native side reports as read-only is
/// refused with `ReadOnly`, whatever the value: no container is built, so
/// nothing reaches the native side and the property keeps its value. A
/// name that the object does not have is refused as `NoSuchProperty`, so
/// the two can be told apart.
pub proof fn lemma_read_only_write_is_refused(kind: Kind, value: ValueView, found: Lookup)
    ensures
        found matches Lookup::Found { writable: false, .. } ==> set_plan(kind, value, found)
            == Err::<ContainerView, PropertyError>(PropertyError::ReadOnly),
        found is Missing ==> set_plan(kind, value, found) == Err::<ContainerView, PropertyError>(
            PropertyError::NoSuchProperty,
        ),
        set_plan(kind, value, found) is Ok ==> found matches Lookup::Found { writable: true, .. },
{
}

/// A value written to a property that can be read and written, and read
/// back from the container that carried it, comes back as it was. This
/// holds of every boolean, integer and address, of the absent string, and
/// of strings and lists of strings that hold no NUL byte.
pub proof fn lemma_set_then_get(value: ValueView, found: Lookup)
    requires
        found == (Lookup::Found { kind: kind_of(value), readable: true, writable: true }),
        transportable(value),
    ensures
        set_plan(kind_of(value), value, found) == Ok::<ContainerView, PropertyError>(
            marshaled(value),
        ),
        get_plan(kind_of(value), found) is Ok,
        get_result(kind_of(value), marshaled(value)) == Ok::<ValueView, PropertyError>(value),
{
    crate::value::lemma_value_round_trip(value);
}

/// The name of a property, and the kind of value the host holds it as.
pub struct PropertyToken {
    name: String,
    kind: Kind,
}

impl PropertyToken {
    /// The name of the property.
    pub closed spec fn name_view(&self) -> Seq<char> {
        self.name@
    }

    /// The kind the host holds the property as.
    pub closed spec fn kind_view(&self) -> Kind {
        self.kind
    }

    /// A token for the property `name`, held as `kind`.
    pub fn new(name: &str, kind: Kind) -> (token: PropertyToken)
        ensures
            token.name_view() == name@,
            token.kind_view() == kind,
    {
        PropertyToken { name: String::from_str(name), kind }
    }

    /// The name of the property.
    pub fn name(&self) -> (name: &str)
        ensures
            name@ == self.name_view(),
    {
        self.name.as_str()
    }

    /// The kind the host holds the property as.
    pub fn kind(&self) -> (kind: Kind)
        ensures
            kind == self.kind_view(),
    {
        self.kind
    }

    /// The name in the form the native side reads: its bytes and a NUL.
    pub fn native_name(&self) -> (buf: Vec<u8>)
        ensures
            buf@ == c_string(encode_utf8(self.name_view())),
    {
        to_c_string(self.name.as_str().as_bytes())
    }

    /// Prepares a read of the property. `found` is what the native side
    /// reports of the name. On `Ok` the container is handed to the native
    /// side to fill.
    pub fn plan_get(&self, found: Lookup) -> (plan: Result<Container, PropertyError>)
        ensures
            plan is Ok <==> get_plan(self.kind_view(), found) is Ok,
            plan matches Ok(c) ==> Ok::<ContainerView, PropertyError>(c@) == get_plan(
                self.kind_view(),
                found,
            ),
            plan matches Err(e) ==> Err::<ContainerView, PropertyError>(e) == get_plan(
                self.kind_view(),
                found,
            ),
    {
        match found {
            Lookup::Missing => Err(PropertyError::NoSuchProperty),
            Lookup::Found { kind: actual, readable, writable } => {
                if !readable {
                    Err(PropertyError::WriteOnly)
                } else if actual != self.kind {
                    Err(PropertyError::TypeMismatch { actual, requested: self.kind })
                } else {
                    Ok(Container::empty(self.kind))
                }
            },
        }
    }

    /// Reads the host value out of the container that the native side
    /// filled.
    pub fn finish_get(&self, filled: &Container) -> (value: Result<Value, PropertyError>)
        ensures
            value is Ok <==> get_result(self.kind_view(), filled@) is Ok,
            value matches Ok(v) ==> Ok::<ValueView, PropertyError>(v@) == get_result(
                self.kind_view(),
                filled@,
            ),
            value matches Err(e) ==> Err::<ValueView, PropertyError>(e) == get_result(
                self.kind_view(),
                filled@,
            ),
    {
        match filled.unmarshal(self.kind) {
            Ok(value) => Ok(value),
            Err(ValueError::TypeMismatch { actual, requested }) => Err(
                PropertyError::TypeMismatch { actual, requested },
            ),
            Err(ValueError::InvalidText) => Err(PropertyError::InvalidText),
        }
    }

    /// Prepares a write of `value` to the property. `found` is what the
    /// native side reports of the name. On `Ok` the container is handed to
    /// the native side; on `Err` nothing is.
    pub fn plan_set(&self, value: &Value, found: Lookup) -> (plan: Result<Container, PropertyError>)
        ensures
            plan is Ok <==> set_plan(self.kind_view(), value@, found) is Ok,
            plan matches Ok(c) ==> Ok::<ContainerView, PropertyError>(c@) == set_plan(
                self.kind_view(),
                value@,
                found,
            ),
            plan matches Err(e) ==> Err::<ContainerView, PropertyError>(e) == set_plan(
                self.kind_view(),
                value@,
                found,
            ),
    {
        match found {
            Lookup::Missing => Err(PropertyError::NoSuchProperty),
            Lookup::Found { kind: actual, readable, writable } => {
                if !writable {
                    Err(PropertyError::ReadOnly)
                } else if actual != self.kind {
                    Err(PropertyError::TypeMismatch { actual, requested: self.kind })
                } else if value.kind() != self.kind {
                    Err(PropertyError::TypeMismatch { actual: value.kind(), requested: self.kind })
                } else {
                    Ok(value.marshal())
                }
            },
        }
    }
}

} // verus!
