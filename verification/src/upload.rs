//! The body of an upload session: filler bytes, supplied on demand.

use vstd::prelude::*;
use crate::counter::{capped, sum, ByteCounter};

verus! {

/// The byte every upload payload is filled with. The content is immaterial.
pub const FILL_BYTE: u8 = 1;

/// Supplies the body of one upload session, buffer by buffer, until the
/// quota of the session is reached or the phase is told to stop.
pub struct UploadHelper {
    bytes_to_send: u64,
    byte_ctr: u64,
}

/// An upload session, as the contracts speak of it.
pub struct UploadState {
    /// The quota of the session.
    pub bytes_to_send: nat,
    /// Bytes supplied so far.
    pub sent: nat,
}

impl UploadState {
    /// Whether the next request for bytes ends the stream.
    pub open spec fn finished(self, exit_signal: bool) -> bool {
        self.sent >= self.bytes_to_send || exit_signal
    }

    /// Bytes the session puts into a buffer with room for `room` bytes: none
    /// once it has finished, otherwise as many as fit, but never more than
    /// what is left of the quota.
    pub open spec fn supply(self, room: nat, exit_signal: bool) -> nat {
        if self.finished(exit_signal) {
            0
        } else if room <= self.bytes_to_send - self.sent {
            room
        } else {
            (self.bytes_to_send - self.sent) as nat
        }
    }
}

/// Bytes a session with quota `quota` has supplied after it was asked to
/// fill buffers with room for `rooms` bytes, one after the other, while the
/// stop signal stayed down.
pub open spec fn sent_after(quota: nat, rooms: Seq<nat>) -> nat
    decreases rooms.len(),
{
    if rooms.len() == 0 {
        0
    } else {
        let before = sent_after(quota, rooms.drop_last());
        before + (UploadState { bytes_to_send: quota, sent: before }).supply(rooms.last(), false)
    }
}

impl View for UploadHelper {
    type V = UploadState;

    closed spec fn view(&self) -> UploadState {
        UploadState { bytes_to_send: self.bytes_to_send as nat, sent: self.byte_ctr as nat }
    }
}

impl UploadHelper {
    #[verifier::type_invariant]
    spec fn within_quota(self) -> bool {
        self.byte_ctr <= self.bytes_to_send
    }

    /// A session that is to send `bytes_to_send` bytes and has sent none.
    pub fn new(bytes_to_send: u64) -> (helper: UploadHelper)
        ensures
            helper@ == (UploadState { bytes_to_send: bytes_to_send as nat, sent: 0 }),
    {
        UploadHelper { bytes_to_send, byte_ctr: 0 }
    }

    /// Both counts of a session fit in 64 bits.
    pub proof fn counts_fit(&self)
        ensures
            self@.bytes_to_send <= u64::MAX,
            self@.sent <= u64::MAX,
    {
    }

    /// Bytes supplied so far. They never exceed the quota.
    pub fn bytes_sent(&self) -> (sent: u64)
        ensures
            sent == self@.sent,
            self@.sent <= self@.bytes_to_send,
    {
        proof {
            use_type_invariant(self);
        }
        self.byte_ctr
    }

    /// Puts the next bytes of the body at the front of `buf`, adds them to
    /// the byte counter of the phase and returns how many they are.
    ///
    /// The session supplies its quota and no more: a buffer is filled whole
    /// while that much of the quota is left, the last one only as far as the
    /// quota reaches, and what lies behind the supplied bytes is left as it
    /// was. Once the quota is reached, or when `exit_signal` is up, nothing
    /// is supplied and the stream ends with a read of zero bytes.
    pub fn read(&mut self, buf: &mut [u8], exit_signal: bool, counter: &mut ByteCounter) -> (supplied:
        usize)
        ensures
            final(self)@.bytes_to_send == old(self)@.bytes_to_send,
            supplied == old(self)@.supply(old(buf)@.len(), exit_signal),
            final(self)@.sent == old(self)@.sent + supplied,
            final(self)@.sent <= final(self)@.bytes_to_send,
            final(buf)@ == Seq::new(
                old(buf)@.len(),
                |i: int|
                    if i < supplied {
                        FILL_BYTE
                    } else {
                        old(buf)@[i]
                    },
            ),
            final(counter)@ == capped(old(counter)@ + supplied as nat),
            final(counter)@ >= old(counter)@,
    {
        proof {
            use_type_invariant(&*self);
            counter.reading_fits();
        }
        if self.byte_ctr >= self.bytes_to_send || exit_signal {
            return 0;
        }
        let left: u64 = self.bytes_to_send - self.byte_ctr;
        let len: usize = buf.len();
        let supplied: usize = if len as u64 <= left {
            len
        } else {
            left as usize
        };
        let mut i: usize = 0;
        while i < supplied
            invariant
                i <= supplied <= len,
                buf@.len() == len,
                forall|j: int| 0 <= j < i ==> buf@[j] == FILL_BYTE,
                forall|j: int| i <= j < len ==> buf@[j] == old(buf)@[j],
            decreases supplied - i,
        {
            buf[i] = FILL_BYTE;
            i = i + 1;
        }
        self.byte_ctr = self.byte_ctr + supplied as u64;
        counter.add(supplied as u64);
        supplied
    }
}

/// A session sends its quota and no more: however large the buffers it is
/// asked to fill, it never supplies more than its quota, it supplies all
/// that was asked for while that stays within the quota, and it has
/// supplied exactly its quota once that much has been asked for.
pub proof fn session_sends_its_quota_and_no_more(quota: nat, rooms: Seq<nat>)
    ensures
        sent_after(quota, rooms) <= quota,
        sum(rooms) <= quota ==> sent_after(quota, rooms) == sum(rooms),
        sum(rooms) >= quota ==> sent_after(quota, rooms) == quota,
    decreases rooms.len(),
{
    if rooms.len() > 0 {
        session_sends_its_quota_and_no_more(quota, rooms.drop_last());
    }
}

} // verus!
