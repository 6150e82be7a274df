//! The library's error type. Every failure a lifecycle operation or the
//! callout engine can report is a structured variant carrying the context
//! the caller needs (identity, script path, exit code, cause text), sorted
//! into one of five categories.

use vstd::prelude::*;

use crate::strutil::dec_seq;
use crate::strutil::dec_seq_signed;
use crate::strutil::i32_to_dec;
use crate::strutil::u64_to_dec;

verus! {

/// The failure categories.
#[derive(Clone, Copy, Debug, PartialEq, Eq, Structural)]
pub enum ErrorKind {
    /// Bad or missing input: absent parent or type, malformed persisted
    /// JSON, an out-of-range attribute index.
    Validation,
    /// The device already exists in the kernel tree, under the same or a
    /// different parent or type.
    Conflict,
    /// The parent does not offer the requested type, or has no instances
    /// of it left.
    ResourceExhausted,
    /// A hook script failed to run or returned a hard failure.
    ExternalProcess,
    /// A read, write or remove against the kernel tree or the definition
    /// store failed.
    Io,
}

/// One failure, with its context.
#[derive(Debug)]
pub enum MdevError {
    MissingParent { uuid: String },
    MissingType { uuid: String },
    InvalidJson,
    MalformedJson { msg: String },
    AttrIndexOutOfRange { index: u32 },
    NoAttrsToDelete,
    InvalidAttribute { name: String },
    BadCapacityValue { text: String },
    NotDefined,
    NotActive,
    AlreadyExists,
    ExistsDifferentParent,
    ExistsDifferentType,
    ParentNotRegistered { parent: String },
    TypeNotSupported { parent: String, mdev_type: String },
    NoAvailableInstances { parent: String, mdev_type: String },
    ScriptFailure { script: String, code: Option<i32> },
    UndefineNoPath { uuid: String },
    CreateWriteFailed { uuid: String, cause: String },
    RemoveFailed { uuid: String, cause: String },
    AttrWriteFailed { name: String, cause: String },
    Io { msg: String },
}

impl MdevError {
    /// The category a variant belongs to.
    pub open spec fn kind_spec(&self) -> ErrorKind {
        match self {
            MdevError::MissingParent { .. } => ErrorKind::Validation,
            MdevError::MissingType { .. } => ErrorKind::Validation,
            MdevError::InvalidJson => ErrorKind::Validation,
            MdevError::MalformedJson { .. } => ErrorKind::Validation,
            MdevError::AttrIndexOutOfRange { .. } => ErrorKind::Validation,
            MdevError::NoAttrsToDelete => ErrorKind::Validation,
            MdevError::InvalidAttribute { .. } => ErrorKind::Validation,
            MdevError::BadCapacityValue { .. } => ErrorKind::Validation,
            MdevError::NotDefined => ErrorKind::Validation,
            MdevError::NotActive => ErrorKind::Validation,
            MdevError::AlreadyExists => ErrorKind::Conflict,
            MdevError::ExistsDifferentParent => ErrorKind::Conflict,
            MdevError::ExistsDifferentType => ErrorKind::Conflict,
            MdevError::ParentNotRegistered { .. } => ErrorKind::ResourceExhausted,
            MdevError::TypeNotSupported { .. } => ErrorKind::ResourceExhausted,
            MdevError::NoAvailableInstances { .. } => ErrorKind::ResourceExhausted,
            MdevError::ScriptFailure { .. } => ErrorKind::ExternalProcess,
            MdevError::UndefineNoPath { .. } => ErrorKind::Validation,
            MdevError::CreateWriteFailed { .. } => ErrorKind::Io,
            MdevError::RemoveFailed { .. } => ErrorKind::Io,
            MdevError::AttrWriteFailed { .. } => ErrorKind::Io,
            MdevError::Io { .. } => ErrorKind::Io,
        }
    }

    pub fn kind(&self) -> (r: ErrorKind)
        ensures
            r == self.kind_spec(),
    {
        match self {
            MdevError::MissingParent { .. } => ErrorKind::Validation,
            MdevError::MissingType { .. } => ErrorKind::Validation,
            MdevError::InvalidJson => ErrorKind::Validation,
            MdevError::MalformedJson { .. } => ErrorKind::Validation,
            MdevError::AttrIndexOutOfRange { .. } => ErrorKind::Validation,
            MdevError::NoAttrsToDelete => ErrorKind::Validation,
            MdevError::InvalidAttribute { .. } => ErrorKind::Validation,
            MdevError::BadCapacityValue { .. } => ErrorKind::Validation,
            MdevError::NotDefined => ErrorKind::Validation,
            MdevError::NotActive => ErrorKind::Validation,
            MdevError::AlreadyExists => ErrorKind::Conflict,
            MdevError::ExistsDifferentParent => ErrorKind::Conflict,
            MdevError::ExistsDifferentType => ErrorKind::Conflict,
            MdevError::ParentNotRegistered { .. } => ErrorKind::ResourceExhausted,
            MdevError::TypeNotSupported { .. } => ErrorKind::ResourceExhausted,
            MdevError::NoAvailableInstances { .. } => ErrorKind::ResourceExhausted,
            MdevError::ScriptFailure { .. } => ErrorKind::ExternalProcess,
            MdevError::UndefineNoPath { .. } => ErrorKind::Validation,
            MdevError::CreateWriteFailed { .. } => ErrorKind::Io,
            MdevError::RemoveFailed { .. } => ErrorKind::Io,
            MdevError::AttrWriteFailed { .. } => ErrorKind::Io,
            MdevError::Io { .. } => ErrorKind::Io,
        }
    }

    /// The human-readable text of a variant.
    pub open spec fn message_spec(&self) -> Seq<char> {
        match self {
            MdevError::MissingParent { uuid } => "Device "@ + uuid@ + " is missing a parent"@,
            MdevError::MissingType { uuid } => "Device "@ + uuid@ + " is missing a mdev_type"@,
            MdevError::InvalidJson => "invalid json"@,
            MdevError::MalformedJson { msg } => "invalid json: "@ + msg@,
            MdevError::AttrIndexOutOfRange { index } => "Attribute index "@ + dec_seq(
                *index as int,
            ) + " is invalid"@,
            MdevError::NoAttrsToDelete => "No attributes to delete"@,
            MdevError::InvalidAttribute { name } => "Invalid attribute '"@ + name@ + "'"@,
            MdevError::BadCapacityValue { text } => "invalid available_instances value '"@ + text@
                + "'"@,
            MdevError::NotDefined => "Device is not defined"@,
            MdevError::NotActive => "Device is not active"@,
            MdevError::AlreadyExists => "Device already exists"@,
            MdevError::ExistsDifferentParent => "Device exists under different parent"@,
            MdevError::ExistsDifferentType => "Device exists with different type"@,
            MdevError::ParentNotRegistered { parent } => "Parent "@ + parent@
                + " is not currently registered for mdev support"@,
            MdevError::TypeNotSupported { parent, mdev_type } => "Parent "@ + parent@
                + " does not support mdev type "@ + mdev_type@,
            MdevError::NoAvailableInstances { parent, mdev_type } => "No available instances of "@
                + mdev_type@ + " on "@ + parent@,
            MdevError::ScriptFailure { script, code } => match code {
                Some(n) => "callout script "@ + script@ + " failed with return code "@
                    + dec_seq_signed(*n as int),
                None => "callout script "@ + script@ + " was terminated without an exit code"@,
            },
            MdevError::UndefineNoPath { uuid } => "Failed to undefine "@ + uuid@,
            MdevError::CreateWriteFailed { uuid, cause } => "Failed to create mdev "@ + uuid@
                + ": "@ + cause@,
            MdevError::RemoveFailed { uuid, cause } => "Error removing device "@ + uuid@ + ": "@
                + cause@,
            MdevError::AttrWriteFailed { name, cause } => "Failed to write attribute "@ + name@
                + ": "@ + cause@,
            MdevError::Io { msg } => msg@,
        }
    }
    /// The human-readable text of this error.
    pub fn message(&self) -> (r: String)
        ensures
            r@ == self.message_spec(),
    {
        match self {
            MdevError::MissingParent { uuid } => {
                let mut s = "Device ".to_owned();
                s.append(uuid.as_str());
                s.append(" is missing a parent");
                s
            },
            MdevError::MissingType { uuid } => {
                let mut s = "Device ".to_owned();
                s.append(uuid.as_str());
                s.append(" is missing a mdev_type");
                s
            },
            MdevError::InvalidJson => "invalid json".to_owned(),
            MdevError::MalformedJson { msg } => {
                let mut s = "invalid json: ".to_owned();
                s.append(msg.as_str());
                s
            },
            MdevError::AttrIndexOutOfRange { index } => {
                let mut s = "Attribute index ".to_owned();
                let d = u64_to_dec(*index as u64);
                s.append(d.as_str());
                s.append(" is invalid");
                s
            },
            MdevError::NoAttrsToDelete => "No attributes to delete".to_owned(),
            MdevError::InvalidAttribute { name } => {
                let mut s = "Invalid attribute '".to_owned();
                s.append(name.as_str());
                s.append("'");
                s
            },
            MdevError::BadCapacityValue { text } => {
                let mut s = "invalid available_instances value '".to_owned();
                s.append(text.as_str());
                s.append("'");
                s
            },
            MdevError::NotDefined => "Device is not defined".to_owned(),
            MdevError::NotActive => "Device is not active".to_owned(),
            MdevError::AlreadyExists => "Device already exists".to_owned(),
            MdevError::ExistsDifferentParent => "Device exists under different parent".to_owned(),
            MdevError::ExistsDifferentType => "Device exists with different type".to_owned(),
            MdevError::ParentNotRegistered { parent } => {
                let mut s = "Parent ".to_owned();
                s.append(parent.as_str());
                s.append(" is not currently registered for mdev support");
                s
            },
            MdevError::TypeNotSupported { parent, mdev_type } => {
                let mut s = "Parent ".to_owned();
                s.append(parent.as_str());
                s.append(" does not support mdev type ");
                s.append(mdev_type.as_str());
                s
            },
            MdevError::NoAvailableInstances { parent, mdev_type } => {
                let mut s = "No available instances of ".to_owned();
                s.append(mdev_type.as_str());
                s.append(" on ");
                s.append(parent.as_str());
                s
            },
            MdevError::ScriptFailure { script, code } => {
                match code {
                    Some(n) => {
                        let mut s = "callout script ".to_owned();
                        s.append(script.as_str());
                        s.append(" failed with return code ");
                        let d = i32_to_dec(*n);
                        s.append(d.as_str());
                        s
                    },
                    None => {
                        let mut s = "callout script ".to_owned();
                        s.append(script.as_str());
                        s.append(" was terminated without an exit code");
                        s
                    },
                }
            },
            MdevError::UndefineNoPath { uuid } => {
                let mut s = "Failed to undefine ".to_owned();
                s.append(uuid.as_str());
                s
            },
            MdevError::CreateWriteFailed { uuid, cause } => {
                let mut s = "Failed to create mdev ".to_owned();
                s.append(uuid.as_str());
                s.append(": ");
                s.append(cause.as_str());
                s
            },
            MdevError::RemoveFailed { uuid, cause } => {
                let mut s = "Error removing device ".to_owned();
                s.append(uuid.as_str());
                s.append(": ");
                s.append(cause.as_str());
                s
            },
            MdevError::AttrWriteFailed { name, cause } => {
                let mut s = "Failed to write attribute ".to_owned();
                s.append(name.as_str());
                s.append(": ");
                s.append(cause.as_str());
                s
            },
            MdevError::Io { msg } => msg.clone(),
        }
    }
}

} // verus!
