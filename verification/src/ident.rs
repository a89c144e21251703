//! Identifiers, their categories, and the two validity predicates.

use vstd::prelude::*;

verus! {

/// The identifier that names nothing.
pub const H5I_INVALID_HID: i32 = -1;

/// The category of an identifier, as the native library reports it.
///
/// `BadId` and `NTypes` are sentinels: the categories of live identifiers are those
/// whose code lies strictly between the codes of the two.
#[derive(Clone, Copy, Debug, PartialEq, Eq, Hash, Structural)]
pub enum IdType {
    Uninit,
    BadId,
    File,
    Group,
    Datatype,
    Dataspace,
    Dataset,
    Attr,
    Reference,
    Vfl,
    GenpropCls,
    GenpropLst,
    ErrorClass,
    ErrorMsg,
    ErrorStack,
    NTypes,
}

impl IdType {
    /// The number by which the native library names this category.
    pub open spec fn spec_code(self) -> int {
        match self {
            IdType::Uninit => -2,
            IdType::BadId => -1,
            IdType::File => 1,
            IdType::Group => 2,
            IdType::Datatype => 3,
            IdType::Dataspace => 4,
            IdType::Dataset => 5,
            IdType::Attr => 6,
            IdType::Reference => 7,
            IdType::Vfl => 8,
            IdType::GenpropCls => 9,
            IdType::GenpropLst => 10,
            IdType::ErrorClass => 11,
            IdType::ErrorMsg => 12,
            IdType::ErrorStack => 13,
            IdType::NTypes => 14,
        }
    }

    /// Whether this is the category of a live identifier: strictly between the sentinels.
    pub open spec fn spec_is_real(self) -> bool {
        IdType::BadId.spec_code() < self.spec_code() < IdType::NTypes.spec_code()
    }

    /// The category that `code` names, if it names one.
    pub open spec fn spec_from_code(code: int) -> Option<IdType> {
        if code == -2 {
            Some(IdType::Uninit)
        } else if code == -1 {
            Some(IdType::BadId)
        } else if code == 1 {
            Some(IdType::File)
        } else if code == 2 {
            Some(IdType::Group)
        } else if code == 3 {
            Some(IdType::Datatype)
        } else if code == 4 {
            Some(IdType::Dataspace)
        } else if code == 5 {
            Some(IdType::Dataset)
        } else if code == 6 {
            Some(IdType::Attr)
        } else if code == 7 {
            Some(IdType::Reference)
        } else if code == 8 {
            Some(IdType::Vfl)
        } else if code == 9 {
            Some(IdType::GenpropCls)
        } else if code == 10 {
            Some(IdType::GenpropLst)
        } else if code == 11 {
            Some(IdType::ErrorClass)
        } else if code == 12 {
            Some(IdType::ErrorMsg)
        } else if code == 13 {
            Some(IdType::ErrorStack)
        } else if code == 14 {
            Some(IdType::NTypes)
        } else {
            None
        }
    }

    /// The number by which the native library names this category.
    pub fn code(self) -> (code: i32)
        ensures
            code == self.spec_code(),
    {
        match self {
            IdType::Uninit => -2,
            IdType::BadId => -1,
            IdType::File => 1,
            IdType::Group => 2,
            IdType::Datatype => 3,
            IdType::Dataspace => 4,
            IdType::Dataset => 5,
            IdType::Attr => 6,
            IdType::Reference => 7,
            IdType::Vfl => 8,
            IdType::GenpropCls => 9,
            IdType::GenpropLst => 10,
            IdType::ErrorClass => 11,
            IdType::ErrorMsg => 12,
            IdType::ErrorStack => 13,
            IdType::NTypes => 14,
        }
    }

    /// Whether this is the category of a live identifier.
    pub fn is_real(self) -> (yes: bool)
        ensures
            yes == self.spec_is_real(),
    {
        let code: i32 = self.code();
        IdType::BadId.code() < code && code < IdType::NTypes.code()
    }

    /// Finds the category with the given code. No two categories share a code, so the
    /// answer is the only one there is.
    pub fn from_code(code: i32) -> (found: Option<IdType>)
        ensures
            found == IdType::spec_from_code(code as int),
            match found {
                Some(tp) => tp.spec_code() == code,
                None => forall|tp: IdType| tp.spec_code() != code,
            },
    {
        match code {
            -2 => Some(IdType::Uninit),
            -1 => Some(IdType::BadId),
            1 => Some(IdType::File),
            2 => Some(IdType::Group),
            3 => Some(IdType::Datatype),
            4 => Some(IdType::Dataspace),
            5 => Some(IdType::Dataset),
            6 => Some(IdType::Attr),
            7 => Some(IdType::Reference),
            8 => Some(IdType::Vfl),
            9 => Some(IdType::GenpropCls),
            10 => Some(IdType::GenpropLst),
            11 => Some(IdType::ErrorClass),
            12 => Some(IdType::ErrorMsg),
            13 => Some(IdType::ErrorStack),
            14 => Some(IdType::NTypes),
            _ => None,
        }
    }
}

/// The category of `id`, given the category code `native_type` that the native library
/// reports for it: `BadId` unless `id` is positive and the report names the category
/// of a live identifier.
pub open spec fn id_type_of(id: i32, native_type: i32) -> IdType {
    match IdType::spec_from_code(native_type as int) {
        Some(tp) => if id > 0 && tp.spec_is_real() {
            tp
        } else {
            IdType::BadId
        },
        None => IdType::BadId,
    }
}

/// Whether the answer `status` of the native library's validity query says that the
/// identifier asked about is a live, reference-counted object. Only the answer 1
/// counts as yes.
pub open spec fn user_valid(status: i32) -> bool {
    status == 1
}

/// Classifies `id`. `native_type` is the native library's answer to
/// `NativeCall::GetType(id)`.
pub fn get_id_type(id: i32, native_type: i32) -> (tp: IdType)
    ensures
        tp == id_type_of(id, native_type),
        id <= 0 ==> tp == IdType::BadId,
        tp == IdType::BadId || (tp.spec_is_real() && tp.spec_code() == native_type),
{
    match IdType::from_code(native_type) {
        Some(tp) => {
            if id > 0 && tp.is_real() {
                tp
            } else {
                IdType::BadId
            }
        },
        None => IdType::BadId,
    }
}

/// Whether `id` names a live object of any category. `native_type` is the native
/// library's answer to `NativeCall::GetType(id)`.
pub fn is_valid_id(id: i32, native_type: i32) -> (valid: bool)
    ensures
        valid == id_type_of(id, native_type).spec_is_real(),
        id <= 0 ==> !valid,
{
    get_id_type(id, native_type).is_real()
}

/// Whether `id` names a live, reference-counted object: not one of the predefined
/// identifiers, which are valid but never counted. `status` is the native library's
/// answer to `NativeCall::IsValid(id)`.
pub fn is_valid_user_id(status: i32) -> (valid: bool)
    ensures
        valid == user_valid(status),
{
    status == 1
}

} // verus!
