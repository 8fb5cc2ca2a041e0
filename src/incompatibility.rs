use vstd::prelude::*;

verus! {

pub const CANNOT_CREATE_EXTERNAL_CONFIG_STORE: i64 = 13000;
pub const TOO_MANY_CORES: i64 = 14420;
pub const CANNOT_CHANGE_CHECKPOINT_LOCATION: i64 = 16350;
pub const CANNOT_CHANGE_SMART_PAGING_STORE: i64 = 16352;
pub const CANNOT_RESTORE_SAVED_STATE: i64 = 25014;
pub const MISSING_SWITCH: i64 = 33012;

/// A reason reported by a compatibility comparison, keyed by its numeric
/// message code. The six named variants carry the message text only: their
/// code is implied by the variant.
#[derive(Debug)]
pub enum VmIncompatibility {
    CannotCreateExternalConfigStore(String),
    TooManyCores(String),
    CannotChangeCheckpointLocation(String),
    CannotChangeSmartPagingStore(String),
    CannotRestoreSavedState(String),
    MissingSwitch(String),
    Other(String, i64),
}

/// The codes that have a variant of their own.
pub open spec fn is_known_code(code: i64) -> bool {
    code == CANNOT_CREATE_EXTERNAL_CONFIG_STORE || code == TOO_MANY_CORES
        || code == CANNOT_CHANGE_CHECKPOINT_LOCATION || code == CANNOT_CHANGE_SMART_PAGING_STORE
        || code == CANNOT_RESTORE_SAVED_STATE || code == MISSING_SWITCH
}

/// The reason that a code and its message stand for.
pub open spec fn classified(code: i64, msg: String) -> VmIncompatibility {
    if code == CANNOT_CREATE_EXTERNAL_CONFIG_STORE {
        VmIncompatibility::CannotCreateExternalConfigStore(msg)
    } else if code == TOO_MANY_CORES {
        VmIncompatibility::TooManyCores(msg)
    } else if code == CANNOT_CHANGE_CHECKPOINT_LOCATION {
        VmIncompatibility::CannotChangeCheckpointLocation(msg)
    } else if code == CANNOT_CHANGE_SMART_PAGING_STORE {
        VmIncompatibility::CannotChangeSmartPagingStore(msg)
    } else if code == CANNOT_RESTORE_SAVED_STATE {
        VmIncompatibility::CannotRestoreSavedState(msg)
    } else if code == MISSING_SWITCH {
        VmIncompatibility::MissingSwitch(msg)
    } else {
        VmIncompatibility::Other(msg, code)
    }
}

impl VmIncompatibility {
    /// The numeric code of a reason.
    pub open spec fn code(&self) -> i64 {
        match self {
            VmIncompatibility::CannotCreateExternalConfigStore(_) => CANNOT_CREATE_EXTERNAL_CONFIG_STORE,
            VmIncompatibility::TooManyCores(_) => TOO_MANY_CORES,
            VmIncompatibility::CannotChangeCheckpointLocation(_) => CANNOT_CHANGE_CHECKPOINT_LOCATION,
            VmIncompatibility::CannotChangeSmartPagingStore(_) => CANNOT_CHANGE_SMART_PAGING_STORE,
            VmIncompatibility::CannotRestoreSavedState(_) => CANNOT_RESTORE_SAVED_STATE,
            VmIncompatibility::MissingSwitch(_) => MISSING_SWITCH,
            VmIncompatibility::Other(_, i) => *i,
        }
    }

    /// The message text of a reason.
    pub open spec fn text(&self) -> String {
        match self {
            VmIncompatibility::CannotCreateExternalConfigStore(s) => *s,
            VmIncompatibility::TooManyCores(s) => *s,
            VmIncompatibility::CannotChangeCheckpointLocation(s) => *s,
            VmIncompatibility::CannotChangeSmartPagingStore(s) => *s,
            VmIncompatibility::CannotRestoreSavedState(s) => *s,
            VmIncompatibility::MissingSwitch(s) => *s,
            VmIncompatibility::Other(s, _) => *s,
        }
    }

    /// Maps a message code and its text to the reason it stands for.
    pub fn from(msg_id: i64, msg: String) -> (r: Self)
        ensures
            r == classified(msg_id, msg),
    {
        match msg_id {
            CANNOT_CREATE_EXTERNAL_CONFIG_STORE => VmIncompatibility::CannotCreateExternalConfigStore(msg),
            TOO_MANY_CORES => VmIncompatibility::TooManyCores(msg),
            CANNOT_CHANGE_CHECKPOINT_LOCATION => VmIncompatibility::CannotChangeCheckpointLocation(msg),
            CANNOT_CHANGE_SMART_PAGING_STORE => VmIncompatibility::CannotChangeSmartPagingStore(msg),
            CANNOT_RESTORE_SAVED_STATE => VmIncompatibility::CannotRestoreSavedState(msg),
            MISSING_SWITCH => VmIncompatibility::MissingSwitch(msg),
            _ => VmIncompatibility::Other(msg, msg_id),
        }
    }

    pub fn message_id(&self) -> (r: i64)
        ensures
            r == self.code(),
    {
        match self {
            VmIncompatibility::CannotCreateExternalConfigStore(_) => CANNOT_CREATE_EXTERNAL_CONFIG_STORE,
            VmIncompatibility::TooManyCores(_) => TOO_MANY_CORES,
            VmIncompatibility::CannotChangeCheckpointLocation(_) => CANNOT_CHANGE_CHECKPOINT_LOCATION,
            VmIncompatibility::CannotChangeSmartPagingStore(_) => CANNOT_CHANGE_SMART_PAGING_STORE,
            VmIncompatibility::CannotRestoreSavedState(_) => CANNOT_RESTORE_SAVED_STATE,
            VmIncompatibility::MissingSwitch(_) => MISSING_SWITCH,
            VmIncompatibility::Other(_, i) => *i,
        }
    }

    pub fn message(&self) -> (r: &str)
        ensures
            r@ == self.text()@,
    {
        match self {
            VmIncompatibility::CannotCreateExternalConfigStore(s) => s.as_str(),
            VmIncompatibility::TooManyCores(s) => s.as_str(),
            VmIncompatibility::CannotChangeCheckpointLocation(s) => s.as_str(),
            VmIncompatibility::CannotChangeSmartPagingStore(s) => s.as_str(),
            VmIncompatibility::CannotRestoreSavedState(s) => s.as_str(),
            VmIncompatibility::MissingSwitch(s) => s.as_str(),
            VmIncompatibility::Other(s, _) => s.as_str(),
        }
    }
}

/// Classifying a code and reading the reason back returns that code and
/// that text, for every code; a code without a variant of its own lands in
/// `Other`, which keeps both.
pub proof fn lemma_classify_round_trip(code: i64, msg: String)
    ensures
        classified(code, msg).code() == code,
        classified(code, msg).text() == msg,
        is_known_code(code) <==> !(classified(code, msg) is Other),
        !is_known_code(code) ==> classified(code, msg) == VmIncompatibility::Other(msg, code),
{
}

} // verus!
