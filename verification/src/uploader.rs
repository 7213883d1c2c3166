//! Upload sessions and their registry.
//!
//! A session owns a buffer whose size is fixed when it is opened. Chunks are
//! written into it at any offset and in any order; taking the session hands
//! the buffer out and retires the identifier.

use crate::error::UploadError;
use std::collections::HashMap;
use vstd::prelude::*;

verus! {

/// What an open session holds, as mathematics.
pub struct SessionView {
    pub picture_id: u32,
    pub picture_side: u32,
    pub bytes: Seq<u8>,
}

/// A buffer of `n` zero bytes.
pub open spec fn zeros(n: nat) -> Seq<u8> {
    Seq::new(n, |i: int| 0u8)
}

/// `buffer` after `payload` was copied over it from `offset` on.
pub open spec fn write_at(buffer: Seq<u8>, offset: int, payload: Seq<u8>) -> Seq<u8> {
    Seq::new(
        buffer.len(),
        |i: int|
            if offset <= i < offset + payload.len() {
                payload[i - offset]
            } else {
                buffer[i]
            },
    )
}

/// One upload in progress.
pub struct Session {
    picture_id: u32,
    picture_side: u32,
    total_size: usize,
    bytes: Vec<u8>,
}

impl View for Session {
    type V = SessionView;

    closed spec fn view(&self) -> SessionView {
        SessionView {
            picture_id: self.picture_id,
            picture_side: self.picture_side,
            bytes: self.bytes@,
        }
    }
}

impl Session {
    #[verifier::type_invariant]
    spec fn sized(&self) -> bool {
        self.total_size == self.bytes.len()
    }

    /// A session for `total_size` bytes, all zero so far.
    pub fn new(picture_id: u32, picture_side: u32, total_size: usize) -> (session: Self)
        ensures
            session@ == (SessionView {
                picture_id,
                picture_side,
                bytes: zeros(total_size as nat),
            }),
    {
        let bytes: Vec<u8> = vec![0u8; total_size];
        assert(bytes@ =~= zeros(total_size as nat));
        Self { picture_id, picture_side, total_size, bytes }
    }

    /// Copies `chunk` into the buffer at `position`, or refuses it whole when
    /// it would reach past the end.
    pub fn write(&mut self, position: usize, chunk: &[u8]) -> (outcome: Result<(), UploadError>)
        ensures
            outcome == (if position + chunk@.len() <= old(self)@.bytes.len() {
                Ok::<(), UploadError>(())
            } else {
                Err::<(), UploadError>(UploadError::OutOfBounds)
            }),
            final(self)@ == (if position + chunk@.len() <= old(self)@.bytes.len() {
                SessionView {
                    bytes: write_at(old(self)@.bytes, position as int, chunk@),
                    ..old(self)@
                }
            } else {
                old(self)@
            }),
    {
        proof {
            use_type_invariant(&*self);
        }
        if position > self.total_size || chunk.len() > self.total_size - position {
            return Err(UploadError::OutOfBounds);
        }
        let mut i: usize = 0;
        while i < chunk.len()
            invariant
                i <= chunk@.len(),
                position + chunk@.len() <= self.bytes@.len(),
                self.bytes@.len() == old(self).bytes@.len(),
                self.total_size == old(self).total_size,
                self.total_size == self.bytes@.len(),
                self.picture_id == old(self).picture_id,
                self.picture_side == old(self).picture_side,
                forall|k: int|
                    0 <= k < self.bytes@.len() ==> self.bytes@[k] == (if position <= k < position
                        + i {
                        chunk@[k - position]
                    } else {
                        old(self).bytes@[k]
                    }),
            decreases chunk@.len() - i,
        {
            self.bytes[position + i] = chunk[i];
            i += 1;
        }
        assert(self.bytes@ =~= write_at(old(self).bytes@, position as int, chunk@));
        Ok(())
    }
}

/// The open sessions by identifier, as mathematics.
pub type Registry = Map<u32, SessionView>;

/// `registry` after a session of `size` zero bytes was opened under `id`.
pub open spec fn opened(
    registry: Registry,
    id: u32,
    picture_id: u32,
    picture_side: u32,
    size: nat,
) -> Registry {
    registry.insert(id, SessionView { picture_id, picture_side, bytes: zeros(size) })
}

/// What a write of `payload` at `offset` into session `id` answers.
pub open spec fn write_outcome(
    registry: Registry,
    id: u32,
    offset: nat,
    payload: Seq<u8>,
) -> Result<(), UploadError> {
    if !registry.contains_key(id) {
        Err(UploadError::SessionNotFound)
    } else if offset + payload.len() > registry[id].bytes.len() {
        Err(UploadError::OutOfBounds)
    } else {
        Ok(())
    }
}

/// `registry` after a write of `payload` at `offset` into session `id`:
/// changed only where the write is accepted.
pub open spec fn after_write(
    registry: Registry,
    id: u32,
    offset: nat,
    payload: Seq<u8>,
) -> Registry {
    if write_outcome(registry, id, offset, payload) is Ok {
        registry.insert(
            id,
            SessionView {
                bytes: write_at(registry[id].bytes, offset as int, payload),
                ..registry[id]
            },
        )
    } else {
        registry
    }
}

/// What taking session `id` answers: the picture, the side and the buffer.
pub open spec fn take_outcome(registry: Registry, id: u32) -> Result<
    (u32, u32, Seq<u8>),
    UploadError,
> {
    if registry.contains_key(id) {
        Ok((registry[id].picture_id, registry[id].picture_side, registry[id].bytes))
    } else {
        Err(UploadError::SessionNotFound)
    }
}

/// `registry` after session `id` was taken.
pub open spec fn after_take(registry: Registry, id: u32) -> Registry {
    registry.remove(id)
}

/// No identifier is left: every one names an open session.
pub open spec fn exhausted(registry: Registry) -> bool {
    forall|id: u32| registry.contains_key(id)
}

/// How many steps upward lead from `start` to `id`, going round from the
/// largest identifier to zero.
pub open spec fn steps_from(start: u32, id: u32) -> int {
    if id >= start {
        id - start
    } else {
        id - start + 0x1_0000_0000
    }
}

/// `id` is free, and every identifier met before it on the way up from
/// `start` is in use.
pub open spec fn is_first_free(registry: Registry, start: u32, id: u32) -> bool {
    &&& !registry.contains_key(id)
    &&& forall|other: u32|
        steps_from(start, other) < steps_from(start, id) ==> #[trigger] registry.contains_key(
            other,
        )
}

/// How often a random identifier is drawn before the registry is searched
/// in order.
pub const RANDOM_DRAWS: u32 = 16;

/// Draws a 32-bit number from `rand`'s thread-local generator
/// (`rand::thread_rng`, `Rng::gen`). Nothing is claimed of the number.
#[verifier::external_body]
fn random_u32() -> u32 {
    rand::Rng::gen(&mut rand::thread_rng())
}

/// The registry of open upload sessions.
pub struct FileUploader {
    sessions: HashMap<u32, Session>,
}

impl View for FileUploader {
    type V = Registry;

    closed spec fn view(&self) -> Registry {
        Map::new(|id: u32| self.sessions@.contains_key(id), |id: u32| self.sessions@[id]@)
    }
}

impl FileUploader {
    /// A registry without sessions.
    pub fn new() -> (uploader: Self)
        ensures
            uploader@ == Registry::empty(),
    {
        let uploader = Self { sessions: HashMap::new() };
        assert(uploader@ =~= Registry::empty());
        uploader
    }

    /// The first free identifier on the way up from `start`, going round
    /// after the largest; `None` when none is free.
    pub fn first_free_from(&self, start: u32) -> (found: Option<u32>)
        ensures
            match found {
                Some(id) => is_first_free(self@, start, id),
                None => exhausted(self@),
            },
    {
        let mut steps: u64 = 0;
        while steps < 0x1_0000_0000
            invariant
                steps <= 0x1_0000_0000,
                forall|other: u32|
                    steps_from(start, other) < steps ==> #[trigger] self@.contains_key(other),
            decreases 0x1_0000_0000 - steps,
        {
            let candidate: u32 = ((start as u64 + steps) % 0x1_0000_0000) as u32;
            assert(steps_from(start, candidate) == steps);
            if !self.sessions.contains_key(&candidate) {
                return Some(candidate);
            }
            assert forall|other: u32|
                steps_from(start, other) < steps + 1 implies #[trigger] self@.contains_key(
                other,
            ) by {
                if steps_from(start, other) == steps {
                    assert(other == candidate);
                }
            }
            steps += 1;
        }
        None
    }

    /// An identifier that no open session has. Random draws come first; when
    /// all of them hit open sessions the registry is searched in order, so
    /// this fails only when every identifier is in use.
    pub fn generate_uid(&self) -> (outcome: Result<u32, UploadError>)
        ensures
            match outcome {
                Ok(uid) => !self@.contains_key(uid),
                Err(e) => e == UploadError::AllocationFailure && exhausted(self@),
            },
    {
        let mut draws: u32 = 0;
        while draws < RANDOM_DRAWS
            invariant
                draws <= RANDOM_DRAWS,
            decreases RANDOM_DRAWS - draws,
        {
            let uid = random_u32();
            if !self.sessions.contains_key(&uid) {
                return Ok(uid);
            }
            draws += 1;
        }
        match self.first_free_from(random_u32()) {
            Some(uid) => Ok(uid),
            None => Err(UploadError::AllocationFailure),
        }
    }

    /// Retires abandoned sessions. The policy in force retires none, so no
    /// session can be lost while it is being written.
    pub fn clean_sessions(&mut self)
        ensures
            final(self)@ == old(self)@,
    {
    }

    /// Opens a session of `size` zero bytes for side `side` of picture `n`
    /// under an identifier that no open session has. Fails only when no
    /// identifier is left.
    pub fn new_session(&mut self, n: u32, side: u32, size: usize) -> (outcome: Result<
        u32,
        UploadError,
    >)
        ensures
            outcome is Err <==> exhausted(old(self)@),
            match outcome {
                Ok(uid) => !old(self)@.contains_key(uid) && final(self)@ == opened(
                    old(self)@,
                    uid,
                    n,
                    side,
                    size as nat,
                ),
                Err(e) => e == UploadError::AllocationFailure && final(self)@ == old(self)@,
            },
    {
        let uid = match self.generate_uid() {
            Ok(uid) => uid,
            Err(e) => {
                return Err(e);
            },
        };
        self.sessions.insert(uid, Session::new(n, side, size));
        assert(self@ =~= opened(old(self)@, uid, n, side, size as nat));
        Ok(uid)
    }

    /// Copies `chunk` into the buffer of session `uid` at `position`. An
    /// unknown identifier or a chunk that reaches past the announced size is
    /// refused and changes nothing.
    pub fn add_chunk(&mut self, uid: u32, position: usize, chunk: &[u8]) -> (outcome: Result<
        (),
        UploadError,
    >)
        ensures
            outcome == write_outcome(old(self)@, uid, position as nat, chunk@),
            final(self)@ == after_write(old(self)@, uid, position as nat, chunk@),
    {
        let mut session = match self.sessions.remove(&uid) {
            Some(session) => session,
            None => {
                assert(self@ =~= old(self)@);
                return Err(UploadError::SessionNotFound);
            },
        };
        let outcome = session.write(position, chunk);
        self.sessions.insert(uid, session);
        assert(self@ =~= after_write(old(self)@, uid, position as nat, chunk@));
        outcome
    }

    /// Closes session `uid` and hands out its picture, its side and its
    /// buffer as it stands, written or not.
    pub fn take(&mut self, uid: u32) -> (outcome: Result<(u32, u32, Vec<u8>), UploadError>)
        ensures
            take_outcome(old(self)@, uid) == (match outcome {
                Ok((picture_id, picture_side, bytes)) => Ok::<(u32, u32, Seq<u8>), UploadError>(
                    (picture_id, picture_side, bytes@),
                ),
                Err(e) => Err::<(u32, u32, Seq<u8>), UploadError>(e),
            }),
            final(self)@ == after_take(old(self)@, uid),
    {
        match self.sessions.remove(&uid) {
            Some(session) => {
                assert(self@ =~= after_take(old(self)@, uid));
                Ok((session.picture_id, session.picture_side, session.bytes))
            },
            None => {
                assert(self@ =~= after_take(old(self)@, uid));
                Err(UploadError::SessionNotFound)
            },
        }
    }
}

} // verus!
