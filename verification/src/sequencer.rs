//! Polling state machines for the two multi-phase hardware protocols:
//! key-code generation and key retrieval.
//!
//! The peripheral streams data words as they become ready, signalling
//! readiness through status bits, so neither protocol can be a single call.
//! Each operation here is a state machine that a thin register shim drives:
//! the shim polls the status register, hands the bits in, and performs the
//! one register access the machine asks for next. Every decision — whether
//! a request is admissible at all, which word to feed next, when the
//! operation is over, and whether it succeeded — is made and verified here.

use vstd::prelude::*;

use crate::access::is_index_blocked;
use crate::access::spec_index_blocked;
use crate::errors::PufError;
use crate::fields::index_from_keycode;
use crate::fields::spec_keycode_index;
use crate::sizes::key_size_encoding;
use crate::sizes::key_to_keycode_len;
use crate::sizes::spec_keycode_words;
use crate::sizes::spec_size_encoding;

verus! {

/// One snapshot of the peripheral's status bits.
#[derive(Clone, Copy, Debug, PartialEq, Eq)]
pub struct Status {
    /// An operation is in progress.
    pub busy: bool,
    /// The running operation failed.
    pub error: bool,
    /// The last operation completed successfully.
    pub success: bool,
    /// A key-code output word is ready to be read.
    pub codeoutavail: bool,
    /// A key output word is ready to be read.
    pub keyoutavail: bool,
    /// The peripheral requests the next key-code input word.
    pub codeinreq: bool,
}

/// How the peripheral answered the command that was just issued.
#[derive(Clone, Copy, Debug, PartialEq, Eq)]
pub enum AcceptOutcome {
    /// Neither busy nor error is set yet: poll again.
    Pending,
    /// The peripheral went busy: the command was accepted.
    Accepted,
    /// The error bit came up: the command was rejected.
    Rejected,
}

/// Where a sequenced operation stands.
#[derive(Clone, Copy, Debug, PartialEq, Eq)]
pub enum Phase {
    /// The command was issued; waiting for the peripheral to accept it.
    AwaitAccept,
    /// The peripheral is busy and words are moving.
    Streaming,
    /// The machine asked the shim to read one data word and is waiting for
    /// it to be handed in.
    WordPending,
    /// The operation is over; the recorded outcome is final.
    Complete,
}

/// What a key-code generation machine asks the shim to do next.
#[derive(Clone, Copy, Debug, PartialEq, Eq)]
pub enum GenStep {
    /// Nothing to do this round: poll the status again.
    Standby,
    /// Read one word from the code output register and hand it in.
    FetchWord,
    /// The peripheral offers another word but the caller's buffer is full:
    /// the buffer was sized against an earlier length computation, so this
    /// is an internal-invariant violation, not a condition to recover from.
    Overflow,
    /// The busy bit fell; the payload is the final success bit.
    Finished(bool),
}

/// What a key retrieval machine asks the shim to do next.
#[derive(Clone, Copy, Debug, PartialEq, Eq)]
pub enum GetStep {
    /// Nothing to do this round: poll the status again.
    Standby,
    /// Write the carried word to the code input register.
    FeedWord(u32),
    /// The peripheral asked for more code words than the key code holds:
    /// an internal-invariant violation, as for `GenStep::Overflow`.
    CodeExhausted,
    /// Read one word from the key output register and hand it in.
    FetchKeyWord,
    /// The peripheral offers key material beyond the caller's buffer: an
    /// internal-invariant violation, as for `GenStep::Overflow`.
    Overflow,
    /// Busy fell or the error bit rose; the payload is the final success
    /// bit.
    Finished(bool),
}

/// The register values a generation command must be preceded by.
#[derive(Clone, Copy, Debug, PartialEq, Eq)]
pub struct GenerateSetup {
    /// Value for the key index register.
    pub key_index: u32,
    /// Value for the key size register.
    pub key_size: u32,
}

/// Whether a generation request is admissible: the command allowed, the key
/// length a whole number of 8-byte blocks, the caller's buffer large enough
/// for the key code, the index and the size encoding representable.
pub open spec fn spec_generate_accepts(
    allowed: bool,
    index: u32,
    key_len: usize,
    capacity_words: usize,
) -> bool {
    &&& allowed
    &&& key_len % 8 == 0
    &&& capacity_words >= spec_keycode_words(key_len as int)
    &&& index <= 15
    &&& key_len < 256
}

/// The key-code generation protocol, one status poll at a time.
#[derive(Debug)]
pub struct GenerateOp {
    phase: Phase,
    needed_words: usize,
    capacity_words: usize,
    words: Vec<u32>,
    succeeded: bool,
}

impl GenerateOp {
    /// Where the machine stands.
    pub closed spec fn phase(&self) -> Phase {
        self.phase
    }

    /// How many key-code words the requested key length calls for.
    pub closed spec fn needed_words(&self) -> int {
        self.needed_words as int
    }

    /// How many words the caller's buffer can hold.
    pub closed spec fn capacity_words(&self) -> int {
        self.capacity_words as int
    }

    /// The key-code words collected so far.
    pub closed spec fn words(&self) -> Seq<u32> {
        self.words@
    }

    /// The recorded outcome; meaningful once the phase is `Complete`.
    pub closed spec fn succeeded(&self) -> bool {
        self.succeeded
    }

    /// The machine never holds more words than the caller's buffer, and a
    /// pending word always has room.
    pub open spec fn inv(&self) -> bool {
        &&& self.words().len() <= self.capacity_words()
        &&& self.phase() is WordPending ==> self.words().len() < self.capacity_words()
    }

    /// Admit or refuse a generation request. On success the caller must
    /// program the two returned register values, issue the generate
    /// command, and then drive `accept` and `poll`.
    pub fn begin(allowed: bool, index: u32, key_len: usize, capacity_words: usize) -> (r: Result<
        (GenerateOp, GenerateSetup),
        PufError,
    >)
        requires
            key_len <= usize::MAX - 51,
        ensures
            r is Ok <==> spec_generate_accepts(allowed, index, key_len, capacity_words),
            !allowed ==> r == Err::<(GenerateOp, GenerateSetup), PufError>(PufError::CmdDisallowed),
            allowed && key_len % 8 != 0 ==> r == Err::<(GenerateOp, GenerateSetup), PufError>(
                PufError::InvalidKeyLength,
            ),
            allowed && key_len % 8 == 0 && capacity_words < spec_keycode_words(key_len as int)
                ==> r == Err::<(GenerateOp, GenerateSetup), PufError>(PufError::BufferTooSmall),
            allowed && key_len % 8 == 0 && capacity_words >= spec_keycode_words(key_len as int)
                && index > 15 ==> r == Err::<(GenerateOp, GenerateSetup), PufError>(
                PufError::IndexOutOfRange,
            ),
            allowed && key_len % 8 == 0 && capacity_words >= spec_keycode_words(key_len as int)
                && index <= 15 && key_len >= 256 ==> r == Err::<
                (GenerateOp, GenerateSetup),
                PufError,
            >(PufError::UnsupportedSize),
            r matches Ok((op, setup)) ==> op.phase() is AwaitAccept && op.words()
                == Seq::<u32>::empty() && op.needed_words() == spec_keycode_words(key_len as int)
                && op.capacity_words() == capacity_words && op.inv() && setup.key_index == index
                && setup.key_size == spec_size_encoding(key_len as int),
    {
        if !allowed {
            return Err(PufError::CmdDisallowed);
        }
        let needed_bytes = match key_to_keycode_len(key_len) {
            Ok(n) => n,
            Err(e) => {
                return Err(e);
            },
        };
        let needed_words = needed_bytes / 4;
        if capacity_words < needed_words {
            return Err(PufError::BufferTooSmall);
        }
        if index > 15 {
            return Err(PufError::IndexOutOfRange);
        }
        let key_size = match key_size_encoding(key_len) {
            Ok(e) => e,
            Err(e) => {
                return Err(e);
            },
        };
        let op = GenerateOp {
            phase: Phase::AwaitAccept,
            needed_words,
            capacity_words,
            words: Vec::new(),
            succeeded: false,
        };
        Ok((op, GenerateSetup { key_index: index, key_size }))
    }

    /// Judge one poll of the busy and error bits while the issued command
    /// awaits acceptance. A rejection ends the operation as a failure.
    pub fn accept(&mut self, busy: bool, error: bool) -> (r: AcceptOutcome)
        requires
            old(self).phase() is AwaitAccept,
            old(self).inv(),
        ensures
            final(self).inv(),
            r == AcceptOutcome::Rejected <==> error,
            r == AcceptOutcome::Accepted <==> !error && busy,
            r == AcceptOutcome::Pending <==> !error && !busy,
            r == AcceptOutcome::Pending ==> *final(self) == *old(self),
            r == AcceptOutcome::Accepted ==> final(self).phase() is Streaming,
            r == AcceptOutcome::Rejected ==> final(self).phase() is Complete && !final(self).succeeded(),
            final(self).words() == old(self).words(),
            final(self).needed_words() == old(self).needed_words(),
            final(self).capacity_words() == old(self).capacity_words(),
    {
        if error {
            self.phase = Phase::Complete;
            self.succeeded = false;
            AcceptOutcome::Rejected
        } else if busy {
            self.phase = Phase::Streaming;
            AcceptOutcome::Accepted
        } else {
            AcceptOutcome::Pending
        }
    }

    /// Judge one status poll while the peripheral streams the key code out.
    pub fn poll(&mut self, status: Status) -> (r: GenStep)
        requires
            old(self).phase() is Streaming,
            old(self).inv(),
        ensures
            final(self).inv(),
            final(self).words() == old(self).words(),
            final(self).needed_words() == old(self).needed_words(),
            final(self).capacity_words() == old(self).capacity_words(),
            !status.busy ==> r == GenStep::Finished(status.success) && final(self).phase()
                is Complete && final(self).succeeded() == status.success,
            status.busy && status.codeoutavail && old(self).words().len() < old(self).capacity_words() ==> r == GenStep::FetchWord && final(self).phase() is WordPending,
            status.busy && status.codeoutavail && old(self).words().len() == old(self).capacity_words() ==> r == GenStep::Overflow && *final(self) == *old(self),
            status.busy && !status.codeoutavail ==> r == GenStep::Standby && *final(self) == *old(self),
    {
        if !status.busy {
            self.phase = Phase::Complete;
            self.succeeded = status.success;
            GenStep::Finished(status.success)
        } else if status.codeoutavail {
            if self.words.len() < self.capacity_words {
                self.phase = Phase::WordPending;
                GenStep::FetchWord
            } else {
                GenStep::Overflow
            }
        } else {
            GenStep::Standby
        }
    }

    /// Hand in the code output word the machine asked for with
    /// `GenStep::FetchWord`.
    pub fn push_word(&mut self, word: u32)
        requires
            old(self).phase() is WordPending,
            old(self).inv(),
        ensures
            final(self).inv(),
            final(self).phase() is Streaming,
            final(self).words() == old(self).words().push(word),
            final(self).needed_words() == old(self).needed_words(),
            final(self).capacity_words() == old(self).capacity_words(),
    {
        self.words.push(word);
        self.phase = Phase::Streaming;
    }

    /// Surrender the outcome: the final success bit and the collected key
    /// code, in the order the peripheral emitted it.
    pub fn finish(self) -> (r: (bool, Vec<u32>))
        requires
            self.phase() is Complete,
        ensures
            r.0 == self.succeeded(),
            r.1@ == self.words(),
    {
        (self.succeeded, self.words)
    }
}

/// Whether a retrieval request is admissible: the command allowed, the key
/// code non-empty, its embedded index a real access slot (not 0), and that
/// index not blocked. This is the security gate: the peripheral answers a
/// retrieval for a blocked index with all-zero key material instead of an
/// error, so the refusal must happen here, before any command is issued.
pub open spec fn spec_getkey_accepts(allowed: bool, code: Seq<u32>, low: u32, high: u32) -> bool {
    &&& allowed
    &&& code.len() > 0
    &&& spec_keycode_index(code[0]) != 0
    &&& !spec_index_blocked(low, high, spec_keycode_index(code[0]))
}

/// A key code whose embedded index is blocked never passes the retrieval
/// gate, whatever else holds of the request.
pub proof fn lemma_blocked_index_never_accepted(allowed: bool, code: Seq<u32>, low: u32, high: u32)
    requires
        code.len() > 0,
        spec_index_blocked(low, high, spec_keycode_index(code[0])),
    ensures
        !spec_getkey_accepts(allowed, code, low, high),
{
}

/// The key retrieval protocol, one status poll at a time.
#[derive(Debug)]
pub struct GetKeyOp {
    phase: Phase,
    code: Vec<u32>,
    fed: usize,
    key: Vec<u8>,
    capacity_bytes: usize,
    succeeded: bool,
}

impl GetKeyOp {
    /// Where the machine stands.
    pub closed spec fn phase(&self) -> Phase {
        self.phase
    }

    /// The key code being exchanged for a key.
    pub closed spec fn code(&self) -> Seq<u32> {
        self.code@
    }

    /// How many code words have been fed to the peripheral.
    pub closed spec fn fed(&self) -> int {
        self.fed as int
    }

    /// The key bytes collected so far.
    pub closed spec fn key(&self) -> Seq<u8> {
        self.key@
    }

    /// How many bytes the caller's key buffer can hold.
    pub closed spec fn capacity_bytes(&self) -> int {
        self.capacity_bytes as int
    }

    /// The recorded outcome; meaningful once the phase is `Complete`.
    pub closed spec fn succeeded(&self) -> bool {
        self.succeeded
    }

    /// Code words are fed at most once each, the collected key never
    /// outgrows the caller's buffer, and a pending key word has room.
    pub open spec fn inv(&self) -> bool {
        &&& self.fed() <= self.code().len()
        &&& self.key().len() <= self.capacity_bytes()
        &&& self.phase() is WordPending ==> self.key().len() + 4 <= self.capacity_bytes()
    }

    /// Admit or refuse a retrieval request, judging the blocking gate from
    /// the two blocking register values. On success the caller must issue
    /// the get-key command and then drive `accept` and `poll`; on refusal
    /// no command may be issued.
    pub fn begin(allowed: bool, keycode: &[u32], low: u32, high: u32, capacity_bytes: usize) -> (r:
        Result<GetKeyOp, PufError>)
        ensures
            r is Ok <==> spec_getkey_accepts(allowed, keycode@, low, high),
            !allowed ==> r == Err::<GetKeyOp, PufError>(PufError::CmdDisallowed),
            allowed && keycode@.len() == 0 ==> r == Err::<GetKeyOp, PufError>(
                PufError::InvalidKeycode,
            ),
            allowed && keycode@.len() > 0 && spec_keycode_index(keycode@[0]) == 0 ==> r == Err::<
                GetKeyOp,
                PufError,
            >(PufError::IndexOutOfRange),
            allowed && keycode@.len() > 0 && spec_keycode_index(keycode@[0]) != 0
                && spec_index_blocked(low, high, spec_keycode_index(keycode@[0])) ==> r == Err::<
                GetKeyOp,
                PufError,
            >(PufError::IndexBlocked),
            r matches Ok(op) ==> op.phase() is AwaitAccept && op.code() == keycode@ && op.fed() == 0
                && op.key() == Seq::<u8>::empty() && op.capacity_bytes() == capacity_bytes
                && op.inv(),
    {
        if !allowed {
            return Err(PufError::CmdDisallowed);
        }
        let index = match index_from_keycode(keycode) {
            Ok(i) => i,
            Err(e) => {
                return Err(e);
            },
        };
        if index == 0 {
            return Err(PufError::IndexOutOfRange);
        }
        match is_index_blocked(low, high, index) {
            Ok(true) => Err(PufError::IndexBlocked),
            Ok(false) => Ok(
                GetKeyOp {
                    phase: Phase::AwaitAccept,
                    code: vstd::slice::slice_to_vec(keycode),
                    fed: 0,
                    key: Vec::new(),
                    capacity_bytes,
                    succeeded: false,
                },
            ),
            Err(e) => Err(e),
        }
    }

    /// Judge one poll of the busy and error bits while the issued command
    /// awaits acceptance. Unlike generation, a rejection here is tolerated:
    /// the machine moves on to streaming, where the standing error bit ends
    /// the operation with the final success bit low.
    pub fn accept(&mut self, busy: bool, error: bool) -> (r: AcceptOutcome)
        requires
            old(self).phase() is AwaitAccept,
            old(self).inv(),
        ensures
            final(self).inv(),
            r == AcceptOutcome::Rejected <==> error,
            r == AcceptOutcome::Accepted <==> !error && busy,
            r == AcceptOutcome::Pending <==> !error && !busy,
            r == AcceptOutcome::Pending ==> *final(self) == *old(self),
            r != AcceptOutcome::Pending ==> final(self).phase() is Streaming,
            final(self).code() == old(self).code(),
            final(self).fed() == old(self).fed(),
            final(self).key() == old(self).key(),
            final(self).capacity_bytes() == old(self).capacity_bytes(),
    {
        if error {
            self.phase = Phase::Streaming;
            AcceptOutcome::Rejected
        } else if busy {
            self.phase = Phase::Streaming;
            AcceptOutcome::Accepted
        } else {
            AcceptOutcome::Pending
        }
    }

    /// Judge one status poll while words move in both directions. Input
    /// requests take precedence; both conditions are re-judged from a fresh
    /// snapshot every round, since the peripheral interleaves them freely.
    pub fn poll(&mut self, status: Status) -> (r: GetStep)
        requires
            old(self).phase() is Streaming,
            old(self).inv(),
        ensures
            final(self).inv(),
            final(self).code() == old(self).code(),
            final(self).capacity_bytes() == old(self).capacity_bytes(),
            !status.busy || status.error ==> r == GetStep::Finished(status.success) && final(self).phase() is Complete && final(self).succeeded() == status.success && final(self).fed()
                == old(self).fed() && final(self).key() == old(self).key(),
            status.busy && !status.error && status.codeinreq && old(self).fed() < old(self).code().len() ==> r == GetStep::FeedWord(old(self).code()[old(self).fed()]) && final(self).phase() is Streaming && final(self).fed() == old(self).fed() + 1 && final(self).key()
                == old(self).key(),
            status.busy && !status.error && status.codeinreq && old(self).fed() == old(self).code().len() ==> r == GetStep::CodeExhausted && *final(self) == *old(self),
            status.busy && !status.error && !status.codeinreq && status.keyoutavail && old(self).key().len() + 4 <= old(self).capacity_bytes() ==> r == GetStep::FetchKeyWord && final(self).phase() is WordPending && final(self).fed() == old(self).fed() && final(self).key()
                == old(self).key(),
            status.busy && !status.error && !status.codeinreq && status.keyoutavail && old(self).key().len() + 4 > old(self).capacity_bytes() ==> r == GetStep::Overflow && *final(self) == *old(self),
            status.busy && !status.error && !status.codeinreq && !status.keyoutavail ==> r
                == GetStep::Standby && *final(self) == *old(self),
    {
        if !status.busy || status.error {
            self.phase = Phase::Complete;
            self.succeeded = status.success;
            GetStep::Finished(status.success)
        } else if status.codeinreq {
            if self.fed < self.code.len() {
                let word = self.code[self.fed];
                self.fed = self.fed + 1;
                GetStep::FeedWord(word)
            } else {
                GetStep::CodeExhausted
            }
        } else if status.keyoutavail {
            if self.capacity_bytes - self.key.len() >= 4 {
                self.phase = Phase::WordPending;
                GetStep::FetchKeyWord
            } else {
                GetStep::Overflow
            }
        } else {
            GetStep::Standby
        }
    }

    /// Hand in the key output word the machine asked for with
    /// `GetStep::FetchKeyWord`. Its four bytes join the key in the
    /// peripheral's byte order, least significant first.
    pub fn push_key_word(&mut self, word: u32)
        requires
            old(self).phase() is WordPending,
            old(self).inv(),
        ensures
            final(self).inv(),
            final(self).phase() is Streaming,
            final(self).key() == old(self).key() + vstd::bytes::spec_u32_to_le_bytes(word),
            final(self).code() == old(self).code(),
            final(self).fed() == old(self).fed(),
            final(self).capacity_bytes() == old(self).capacity_bytes(),
    {
        let mut bytes = vstd::bytes::u32_to_le_bytes(word);
        self.key.append(&mut bytes);
        self.phase = Phase::Streaming;
    }

    /// Surrender the outcome: the final success bit and the key bytes, in
    /// the order the peripheral delivered them.
    pub fn finish(self) -> (r: (bool, Vec<u8>))
        requires
            self.phase() is Complete,
        ensures
            r.0 == self.succeeded(),
            r.1@ == self.key(),
    {
        (self.succeeded, self.key)
    }
}

} // verus!
