use vstd::prelude::*;
use crate::error::ErrorCode;

verus! {

/// Maximum encoded length, in bytes, of a poll id.
pub const MAX_POLL_ID_LEN: usize = 32;
/// Maximum number of options a poll may declare.
pub const MAX_OPTIONS: usize = 4;
/// Maximum encoded length, in bytes, of one option.
pub const MAX_OPTION_LEN: usize = 32;
/// Maximum encoded length, in bytes, of an external correlation id.
pub const MAX_EXTERNAL_REF_LEN: usize = 64;

/// Length, in bytes, of the UTF-8 encoding of a string.
pub open spec fn encoded_len(s: Seq<char>) -> nat {
    vstd::utf8::encode_utf8(s).len()
}

/// Encoded length of a string, in bytes.
pub fn byte_len(s: &String) -> (n: usize)
    ensures
        n == encoded_len(s@),
{
    s.as_str().as_bytes().len()
}

/// The authenticated principal on whose behalf an operation runs: a 256-bit
/// public key held as four 64-bit limbs. The host runtime verifies the
/// signature cryptographically before the logic sees the identity; the
/// logic itself only ever compares identities for equality.
#[derive(Clone, Copy, Debug, PartialEq, Eq, Structural)]
pub struct Identity {
    pub k0: u64,
    pub k1: u64,
    pub k2: u64,
    pub k3: u64,
}

/// One poll: a registry entry keyed by `id`. Created once, mutated only in
/// `total_votes` (one vote accepted) and `is_active` (closed), never
/// deleted.
pub struct Poll {
    /// Unique poll id chosen by the creator; immutable once set.
    pub id: String,
    /// Identity of the account that created the poll.
    pub creator: Identity,
    /// Declared options, fixed at creation, never mutated.
    pub options: Vec<String>,
    /// Opaque correlation id into an external system; stored, never read.
    pub hlf_poll_id: String,
    /// Starts `true`; set to `false` by closing; never set back.
    pub is_active: bool,
    /// Number of accepted votes; starts at 0, grows by one per vote.
    pub total_votes: u64,
}

/// One accepted vote: a ledger entry keyed by (`poll_id`, `voter`).
/// Created exactly once, immutable, never deleted.
pub struct VoteRecord {
    /// The poll this vote belongs to.
    pub poll_id: String,
    /// Identity of the signer who cast the vote.
    pub voter: Identity,
    /// The chosen option; equals one entry of the poll's options.
    pub vote_option: String,
    /// Opaque correlation id into an external system.
    pub hlf_vote_id: String,
    /// Seconds since epoch, read from the runtime's trusted clock.
    pub timestamp: i64,
}

/// The poll id fits the storage layout's key length.
pub open spec fn id_len_ok(pid: Seq<char>) -> bool {
    encoded_len(pid) <= MAX_POLL_ID_LEN
}

/// The declared options and the external correlation id fit the poll
/// record's storage layout.
pub open spec fn layout_ok(options: Seq<String>, external_ref: Seq<char>) -> bool {
    &&& options.len() <= MAX_OPTIONS
    &&& forall|i: int|
        0 <= i < options.len() ==> encoded_len(#[trigger] options[i]@) <= MAX_OPTION_LEN
    &&& encoded_len(external_ref) <= MAX_EXTERNAL_REF_LEN
}

impl Poll {
    /// All stored fields fit the record's storage layout.
    pub open spec fn wf(self) -> bool {
        &&& id_len_ok(self.id@)
        &&& layout_ok(self.options@, self.hlf_poll_id@)
    }
}

/// Whether the declared options fit the storage layout: at most
/// `MAX_OPTIONS` entries, each at most `MAX_OPTION_LEN` bytes.
pub fn options_fit(options: &Vec<String>) -> (r: bool)
    ensures
        r == (options@.len() <= MAX_OPTIONS && (forall|i: int|
            0 <= i < options@.len() ==> encoded_len(#[trigger] options@[i]@) <= MAX_OPTION_LEN)),
{
    if options.len() > MAX_OPTIONS {
        return false;
    }
    let mut i: usize = 0;
    while i < options.len()
        invariant
            i <= options@.len(),
            forall|j: int| 0 <= j < i ==> encoded_len(#[trigger] options@[j]@) <= MAX_OPTION_LEN,
        decreases options@.len() - i,
    {
        if byte_len(&options[i]) > MAX_OPTION_LEN {
            return false;
        }
        i += 1;
    }
    true
}

/// `opt` equals one of the declared options.
pub open spec fn has_option(options: Seq<String>, opt: Seq<char>) -> bool {
    exists|i: int| 0 <= i < options.len() && #[trigger] options[i]@ == opt
}

/// Whether `opt` equals one of the declared options.
pub fn option_listed(options: &Vec<String>, opt: &String) -> (r: bool)
    ensures
        r == has_option(options@, opt@),
{
    let mut i: usize = 0;
    while i < options.len()
        invariant
            i <= options@.len(),
            forall|j: int| 0 <= j < i ==> #[trigger] options@[j]@ != opt@,
        decreases options@.len() - i,
    {
        if options[i] == *opt {
            return true;
        }
        i += 1;
    }
    false
}

/// The validation the vote operation applies to a resolved poll, in order:
/// a closed poll rejects every vote; an option outside the declared list
/// rejects the vote; otherwise the vote may be recorded.
pub fn check_vote(poll: &Poll, vote_option: &String) -> (r: Result<(), ErrorCode>)
    ensures
        !poll.is_active ==> r == Err::<(), ErrorCode>(ErrorCode::PollInactive),
        poll.is_active && !has_option(poll.options@, vote_option@) ==> r == Err::<(),
            ErrorCode,
        >(ErrorCode::InvalidOption),
        poll.is_active && has_option(poll.options@, vote_option@) ==> r == Ok::<(),
            ErrorCode,
        >(()),
{
    if !poll.is_active {
        return Err(ErrorCode::PollInactive);
    }
    if !option_listed(&poll.options, vote_option) {
        return Err(ErrorCode::InvalidOption);
    }
    Ok(())
}

/// The validation the close operation applies to a resolved poll: only the
/// recorded creator may close it.
pub fn check_close(poll: &Poll, caller: &Identity) -> (r: Result<(), ErrorCode>)
    ensures
        poll.creator != *caller ==> r == Err::<(), ErrorCode>(ErrorCode::Unauthorized),
        poll.creator == *caller ==> r == Ok::<(), ErrorCode>(()),
{
    if poll.creator == *caller {
        Ok(())
    } else {
        Err(ErrorCode::Unauthorized)
    }
}

} // verus!
