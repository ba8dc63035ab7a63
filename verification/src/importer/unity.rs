//! References between Unity assets, as they appear in asset and meta files.

use vstd::prelude::*;

verus! {

/// A `.meta` file: it names the guid of the asset next to it.
pub struct MetaDocument {
    pub guid: String,
}

/// The part every MonoBehaviour has: a reference to its script.
pub struct MonoBehaviourMeta {
    pub script: Reference,
}

/// Where a referenced asset lives.
#[derive(Debug, Clone, Copy, PartialEq, Eq)]
pub enum ReferenceType {
    Asset,
    Library,
}

impl ReferenceType {
    /// The type a reference stores as a number: 2 for an asset, 3 for a
    /// library.
    pub open spec fn spec_from_number(n: u8) -> Option<ReferenceType> {
        if n == 2 {
            Some(ReferenceType::Asset)
        } else if n == 3 {
            Some(ReferenceType::Library)
        } else {
            None
        }
    }

    pub fn from_number(n: u8) -> (r: Option<ReferenceType>)
        ensures
            r == Self::spec_from_number(n),
    {
        if n == 2 {
            Some(ReferenceType::Asset)
        } else if n == 3 {
            Some(ReferenceType::Library)
        } else {
            None
        }
    }
}

/// The file id of a reference; zero stands for "no reference".
pub struct FileId(pub Option<i64>);

impl FileId {
    pub open spec fn wf(&self) -> bool {
        self.0 matches Some(id) ==> id != 0
    }

    /// The file id stored as `value`.
    pub fn from_raw(value: i64) -> (r: FileId)
        ensures
            r.wf(),
            r.0 == (if value == 0 {
                None
            } else {
                Some(value)
            }),
    {
        if value == 0 {
            FileId(None)
        } else {
            FileId(Some(value))
        }
    }
}

/// A reference to another asset, or a null reference.
pub struct Reference(pub Option<ReferenceInner>);

/// A reference that points somewhere. `file_id` is never zero.
pub struct ReferenceInner {
    pub file_id: i64,
    pub guid: String,
    pub reference_type: ReferenceType,
}

/// Why the fields of a reference do not make a reference.
#[derive(Debug, Clone, Copy, PartialEq, Eq)]
pub enum ReferenceError {
    /// A reference with a file id has no guid.
    MissingGuid,
    /// A reference with a file id has no type.
    MissingType,
    /// A null reference has a guid.
    UnexpectedGuid,
    /// A null reference has a type.
    UnexpectedType,
}

impl Reference {
    /// The reference that the fields `fileID`, `guid` and `type` describe:
    /// a non-zero file id needs a guid and a type, a zero one allows neither.
    pub fn from_fields(
        file_id: FileId,
        guid: Option<String>,
        reference_type: Option<ReferenceType>,
    ) -> (r: Result<Reference, ReferenceError>)
        requires
            file_id.wf(),
        ensures
            match file_id.0 {
                Some(id) => match (guid, reference_type) {
                    (Some(g), Some(t)) => r matches Ok(Reference(Some(inner))) && inner.file_id == id
                        && inner.guid == g && inner.reference_type == t,
                    (None, _) => r == Err::<Reference, ReferenceError>(ReferenceError::MissingGuid),
                    (Some(_), None) => r == Err::<Reference, ReferenceError>(ReferenceError::MissingType),
                },
                None => match (guid, reference_type) {
                    (None, None) => r matches Ok(Reference(None)),
                    (Some(_), _) => r == Err::<Reference, ReferenceError>(ReferenceError::UnexpectedGuid),
                    (None, Some(_)) => r == Err::<Reference, ReferenceError>(
                        ReferenceError::UnexpectedType,
                    ),
                },
            },
    {
        match file_id.0 {
            Some(id) => {
                let guid = match guid {
                    Some(g) => g,
                    None => return Err(ReferenceError::MissingGuid),
                };
                let reference_type = match reference_type {
                    Some(t) => t,
                    None => return Err(ReferenceError::MissingType),
                };
                Ok(Reference(Some(ReferenceInner { file_id: id, guid, reference_type })))
            },
            None => {
                if guid.is_some() {
                    return Err(ReferenceError::UnexpectedGuid);
                }
                if reference_type.is_some() {
                    return Err(ReferenceError::UnexpectedType);
                }
                Ok(Reference(None))
            },
        }
    }

    /// The guid this reference points at, if it points anywhere.
    pub fn guid(&self) -> (r: Option<&String>)
        ensures
            match self.0 {
                Some(inner) => r == Some(&inner.guid),
                None => r is None,
            },
    {
        match &self.0 {
            Some(inner) => Some(&inner.guid),
            None => None,
        }
    }
}

} // verus!
