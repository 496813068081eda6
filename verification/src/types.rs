//! Plain data exchanged with the module: session and key enumerations, and the
//! unsolicited events a session produces.
use vstd::prelude::*;

verus! {

#[derive(Debug, Copy, Clone, PartialEq, Eq, Structural)]
pub enum SessionType {
    Temporary,
    PersistentLicense,
    PermanentKeyRelease,
}

#[derive(Debug, Copy, Clone, PartialEq, Eq, Structural)]
pub enum InitDataType {
    Cenc,
    KeyIds,
    WebM,
}

#[derive(Debug, Copy, Clone, PartialEq, Eq, Structural)]
pub enum Exception {
    TypeError,
    NotSupportedError,
    InvalidStateError,
    QuotaExceededError,
}

#[derive(Debug, Copy, Clone, PartialEq, Eq, Structural)]
pub enum MessageType {
    LicenseRequest,
    LicenseRenewal,
    LicenseRelease,
    IndividualizationRequest,
}

#[derive(Debug, Copy, Clone, PartialEq, Eq, Structural)]
pub enum KeyStatus {
    Usable,
    InternalError,
    Expired,
    OutputRestricted,
    OutputDownscaled,
    StatusPending,
    Released,
}

/// A message a session asks the host to deliver, with its payload copied out
/// of the module's memory.
#[derive(Debug, Clone, PartialEq, Eq)]
pub struct SessionMessage {
    pub message_type: MessageType,
    pub content: Vec<u8>,
}

/// One key of a session as the host keeps it: the key id is owned.
#[derive(Debug, Clone, PartialEq, Eq)]
pub struct KeyInformation {
    pub key_id: Vec<u8>,
    pub status: KeyStatus,
    pub system_code: u32,
}

/// One key of a session as the module hands it over: the key id is borrowed
/// for the duration of the callback only.
#[derive(Debug, Clone, PartialEq, Eq)]
pub struct CDMKeyInformation<'a> {
    pub key_id: &'a [u8],
    pub status: KeyStatus,
    pub system_code: u32,
}

#[derive(Debug, Clone, PartialEq, Eq)]
pub struct KeysChange {
    pub has_additional_usable_key: bool,
    pub keys_info: Vec<KeyInformation>,
}

/// What happened to a session. An expiry time is carried as the bit pattern
/// of the module's 64-bit floating-point value.
#[derive(Debug, Clone, PartialEq, Eq)]
pub enum SessionEventType {
    Message(SessionMessage),
    ExpirationChange(u64),
    KeysChange(KeysChange),
}

#[derive(Debug, Clone, PartialEq, Eq)]
pub struct SessionEvent {
    pub session_id: String,
    pub data: SessionEventType,
}

/// The mathematical content of a key entry.
pub struct KeyInformationView {
    pub key_id: Seq<u8>,
    pub status: KeyStatus,
    pub system_code: u32,
}

impl View for KeyInformation {
    type V = KeyInformationView;

    open spec fn view(&self) -> KeyInformationView {
        KeyInformationView {
            key_id: self.key_id@,
            status: self.status,
            system_code: self.system_code,
        }
    }
}

impl<'a> View for CDMKeyInformation<'a> {
    type V = KeyInformationView;

    open spec fn view(&self) -> KeyInformationView {
        KeyInformationView {
            key_id: self.key_id@,
            status: self.status,
            system_code: self.system_code,
        }
    }
}

/// The mathematical content of a session event's payload.
pub enum SessionEventTypeView {
    Message { message_type: MessageType, content: Seq<u8> },
    ExpirationChange { expiry_bits: u64 },
    KeysChange { has_additional_usable_key: bool, keys_info: Seq<KeyInformationView> },
}

/// The mathematical content of a session event.
pub struct SessionEventView {
    pub session_id: Seq<char>,
    pub data: SessionEventTypeView,
}

/// The views of a run of key entries, in order.
pub open spec fn keys_view(keys: Seq<KeyInformation>) -> Seq<KeyInformationView> {
    Seq::new(keys.len(), |i: int| keys[i]@)
}

impl View for SessionEventType {
    type V = SessionEventTypeView;

    open spec fn view(&self) -> SessionEventTypeView {
        match *self {
            SessionEventType::Message(m) => SessionEventTypeView::Message {
                message_type: m.message_type,
                content: m.content@,
            },
            SessionEventType::ExpirationChange(bits) => SessionEventTypeView::ExpirationChange {
                expiry_bits: bits,
            },
            SessionEventType::KeysChange(k) => SessionEventTypeView::KeysChange {
                has_additional_usable_key: k.has_additional_usable_key,
                keys_info: keys_view(k.keys_info@),
            },
        }
    }
}

impl View for SessionEvent {
    type V = SessionEventView;

    open spec fn view(&self) -> SessionEventView {
        SessionEventView { session_id: self.session_id@, data: self.data@ }
    }
}

impl SessionType {
    /// The number by which the module knows this session type.
    pub open spec fn spec_code(self) -> u32 {
        match self {
            SessionType::Temporary => 0,
            SessionType::PersistentLicense => 1,
            SessionType::PermanentKeyRelease => 2,
        }
    }

    /// The number by which the module knows this session type.
    pub fn code(self) -> (code: u32)
        ensures
            code == self.spec_code(),
    {
        match self {
            SessionType::Temporary => 0,
            SessionType::PersistentLicense => 1,
            SessionType::PermanentKeyRelease => 2,
        }
    }
}

impl InitDataType {
    /// The number by which the module knows this kind of initialization
    /// data.
    pub open spec fn spec_code(self) -> u32 {
        match self {
            InitDataType::Cenc => 0,
            InitDataType::KeyIds => 1,
            InitDataType::WebM => 2,
        }
    }

    /// The number by which the module knows this kind of initialization
    /// data.
    pub fn code(self) -> (code: u32)
        ensures
            code == self.spec_code(),
    {
        match self {
            InitDataType::Cenc => 0,
            InitDataType::KeyIds => 1,
            InitDataType::WebM => 2,
        }
    }
}

impl Exception {
    /// The exception kind the module means by `code`, if it means one.
    pub open spec fn spec_from_code(code: u32) -> Option<Exception> {
        if code == 0 {
            Some(Exception::TypeError)
        } else if code == 1 {
            Some(Exception::NotSupportedError)
        } else if code == 2 {
            Some(Exception::InvalidStateError)
        } else if code == 3 {
            Some(Exception::QuotaExceededError)
        } else {
            None
        }
    }

    /// The exception kind the module means by `code`; `None` for a number
    /// that stands for none.
    pub fn from_code(code: u32) -> (kind: Option<Exception>)
        ensures
            kind == Self::spec_from_code(code),
    {
        match code {
            0 => Some(Exception::TypeError),
            1 => Some(Exception::NotSupportedError),
            2 => Some(Exception::InvalidStateError),
            3 => Some(Exception::QuotaExceededError),
            _ => None,
        }
    }
}

impl MessageType {
    /// The message type the module means by `code`, if it means one.
    pub open spec fn spec_from_code(code: u32) -> Option<MessageType> {
        if code == 0 {
            Some(MessageType::LicenseRequest)
        } else if code == 1 {
            Some(MessageType::LicenseRenewal)
        } else if code == 2 {
            Some(MessageType::LicenseRelease)
        } else if code == 3 {
            Some(MessageType::IndividualizationRequest)
        } else {
            None
        }
    }

    /// The message type the module means by `code`; `None` for a number that
    /// stands for none.
    pub fn from_code(code: u32) -> (kind: Option<MessageType>)
        ensures
            kind == Self::spec_from_code(code),
    {
        match code {
            0 => Some(MessageType::LicenseRequest),
            1 => Some(MessageType::LicenseRenewal),
            2 => Some(MessageType::LicenseRelease),
            3 => Some(MessageType::IndividualizationRequest),
            _ => None,
        }
    }
}

impl KeyStatus {
    /// The key status the module means by `code`, if it means one.
    pub open spec fn spec_from_code(code: u32) -> Option<KeyStatus> {
        if code == 0 {
            Some(KeyStatus::Usable)
        } else if code == 1 {
            Some(KeyStatus::InternalError)
        } else if code == 2 {
            Some(KeyStatus::Expired)
        } else if code == 3 {
            Some(KeyStatus::OutputRestricted)
        } else if code == 4 {
            Some(KeyStatus::OutputDownscaled)
        } else if code == 5 {
            Some(KeyStatus::StatusPending)
        } else if code == 6 {
            Some(KeyStatus::Released)
        } else {
            None
        }
    }

    /// The key status the module means by `code`; `None` for a number that
    /// stands for none.
    pub fn from_code(code: u32) -> (status: Option<KeyStatus>)
        ensures
            status == Self::spec_from_code(code),
    {
        match code {
            0 => Some(KeyStatus::Usable),
            1 => Some(KeyStatus::InternalError),
            2 => Some(KeyStatus::Expired),
            3 => Some(KeyStatus::OutputRestricted),
            4 => Some(KeyStatus::OutputDownscaled),
            5 => Some(KeyStatus::StatusPending),
            6 => Some(KeyStatus::Released),
            _ => None,
        }
    }
}

/// The numbers of the session types and of the kinds of initialization data
/// are all different, and none of them goes beyond 2.
pub proof fn lemma_codes_are_distinct(a: SessionType, b: SessionType, c: InitDataType, d: InitDataType)
    ensures
        a.spec_code() == b.spec_code() ==> a == b,
        c.spec_code() == d.spec_code() ==> c == d,
        a.spec_code() <= 2 && c.spec_code() <= 2,
{
}

} // verus!
