//! What the host hands to the module's decrypt entry point, and what comes
//! back.
use vstd::prelude::*;

verus! {

#[derive(Debug, Copy, Clone, PartialEq, Eq, Structural)]
pub enum EncryptionScheme {
    Unencrypted,
    Cenc,
    Cbcs,
}

/// One subsample: a run of clear bytes followed by a run of encrypted bytes.
#[derive(Debug, Copy, Clone, PartialEq, Eq, Structural)]
pub struct SubsampleEntry {
    pub clear_bytes: u32,
    pub cipher_bytes: u32,
}

/// The block pattern of a pattern-encrypted sample.
#[derive(Debug, Copy, Clone, PartialEq, Eq, Structural)]
pub struct Pattern {
    pub crypt_byte_block: u32,
    pub skip_byte_block: u32,
}

/// The status the module returns from one decrypt call.
#[derive(Debug, Copy, Clone, PartialEq, Eq, Structural)]
pub enum Status {
    Success,
    NeedsMoreData,
    NoKey,
    InitializationError,
    DecryptError,
    DecodeError,
    DeferredInitialization,
}

/// An encrypted sample as the host holds it. Every slice is borrowed for the
/// duration of the call.
#[derive(Debug)]
pub struct InputBuffer<'a> {
    pub data: &'a [u8],
    pub encryption_scheme: EncryptionScheme,
    pub key_id: &'a [u8],
    pub iv: &'a [u8],
    pub subsamples: Vec<SubsampleEntry>,
    pub pattern: Pattern,
    pub timestamp: u64,
}

/// The descriptor that crosses the boundary: each borrowed region beside its
/// length as the module's 32-bit count.
#[derive(Debug)]
pub struct CDMInputBuffer<'a> {
    pub data: &'a [u8],
    pub data_size: u32,
    pub encryption_scheme: EncryptionScheme,
    pub key_id: &'a [u8],
    pub key_id_size: u32,
    pub iv: &'a [u8],
    pub iv_size: u32,
    pub subsamples: &'a [SubsampleEntry],
    pub num_subsamples: u32,
    pub pattern: Pattern,
    pub timestamp: u64,
}

/// A length as the module's 32-bit count: the length itself where it fits,
/// its low 32 bits where it does not.
pub open spec fn wire_count(len: nat) -> u32 {
    len as u32
}

fn wire_count_of(len: usize) -> (count: u32)
    ensures
        count == wire_count(len as nat),
{
    #[verifier::truncate]
    (len as u32)
}

impl<'a> InputBuffer<'a> {
    /// The descriptor of this sample: the same regions, scheme, pattern and
    /// timestamp, and the 32-bit count of each region.
    pub fn descriptor(&'a self) -> (d: CDMInputBuffer<'a>)
        ensures
            d.data@ == self.data@,
            d.data_size == wire_count(self.data@.len()),
            d.encryption_scheme == self.encryption_scheme,
            d.key_id@ == self.key_id@,
            d.key_id_size == wire_count(self.key_id@.len()),
            d.iv@ == self.iv@,
            d.iv_size == wire_count(self.iv@.len()),
            d.subsamples@ == self.subsamples@,
            d.num_subsamples == wire_count(self.subsamples@.len()),
            d.pattern == self.pattern,
            d.timestamp == self.timestamp,
    {
        CDMInputBuffer {
            data: self.data,
            data_size: wire_count_of(self.data.len()),
            encryption_scheme: self.encryption_scheme,
            key_id: self.key_id,
            key_id_size: wire_count_of(self.key_id.len()),
            iv: self.iv,
            iv_size: wire_count_of(self.iv.len()),
            subsamples: self.subsamples.as_slice(),
            num_subsamples: wire_count_of(self.subsamples.len()),
            pattern: self.pattern,
            timestamp: self.timestamp,
        }
    }
}

/// A count that fits in 32 bits crosses the boundary unchanged.
pub proof fn lemma_wire_count_in_range(len: nat)
    requires
        len <= u32::MAX,
    ensures
        wire_count(len) == len,
{
}

/// What one decrypt call returned: the status, and the output buffer, which
/// holds decrypted bytes only beside `Status::Success`.
#[derive(Debug)]
pub struct DecryptionResult {
    pub status: Status,
    pub data: Vec<u8>,
}

impl DecryptionResult {
    /// The outcome of the call for the caller: the output bytes on success,
    /// and the status itself, without any bytes, on every other status.
    pub fn into_result(self) -> (r: Result<Vec<u8>, Status>)
        ensures
            r == self.spec_into_result(),
            self.status == Status::Success <==> r is Ok,
    {
        match self.status {
            Status::Success => Ok(self.data),
            status => Err(status),
        }
    }

    pub open spec fn spec_into_result(self) -> Result<Vec<u8>, Status> {
        if self.status == Status::Success {
            Ok(self.data)
        } else {
            Err(self.status)
        }
    }
}

impl EncryptionScheme {
    /// The number by which the module knows this scheme.
    pub open spec fn spec_code(self) -> u32 {
        match self {
            EncryptionScheme::Unencrypted => 0,
            EncryptionScheme::Cenc => 1,
            EncryptionScheme::Cbcs => 2,
        }
    }

    /// The number by which the module knows this scheme.
    pub fn code(self) -> (code: u32)
        ensures
            code == self.spec_code(),
    {
        match self {
            EncryptionScheme::Unencrypted => 0,
            EncryptionScheme::Cenc => 1,
            EncryptionScheme::Cbcs => 2,
        }
    }
}

impl Status {
    /// The status the module means by `code`, if it means one.
    pub open spec fn spec_from_code(code: u32) -> Option<Status> {
        if code == 0 {
            Some(Status::Success)
        } else if code == 1 {
            Some(Status::NeedsMoreData)
        } else if code == 2 {
            Some(Status::NoKey)
        } else if code == 3 {
            Some(Status::InitializationError)
        } else if code == 4 {
            Some(Status::DecryptError)
        } else if code == 5 {
            Some(Status::DecodeError)
        } else if code == 6 {
            Some(Status::DeferredInitialization)
        } else {
            None
        }
    }

    /// The status the module means by `code`; `None` for a number that
    /// stands for none.
    pub fn from_code(code: u32) -> (status: Option<Status>)
        ensures
            status == Self::spec_from_code(code),
    {
        match code {
            0 => Some(Status::Success),
            1 => Some(Status::NeedsMoreData),
            2 => Some(Status::NoKey),
            3 => Some(Status::InitializationError),
            4 => Some(Status::DecryptError),
            5 => Some(Status::DecodeError),
            6 => Some(Status::DeferredInitialization),
            _ => None,
        }
    }

    /// Whether the caller may simply try again later: with more input after
    /// `NeedsMoreData`, once a key has arrived after `NoKey`.
    pub fn is_recoverable(&self) -> (r: bool)
        ensures
            r == (*self == Status::NeedsMoreData || *self == Status::NoKey),
    {
        match self {
            Status::NeedsMoreData => true,
            Status::NoKey => true,
            _ => false,
        }
    }
}

} // verus!
