//! The three durable state records and the decision logic of their
//! load-or-default / overwrite-save protocol.
//!
//! Each record is created with default values on first access, mutated by its
//! owning runtime component, and persisted only by an explicit save.  Opening
//! and reading the backing file, and turning its bytes into a value, happen
//! outside the library; what the caller observed is handed in as a
//! [`LoadEvent`], and [`load_step`] decides what must follow, so that all
//! three records share identical error semantics.

use crate::errors::StateError;
use crate::outside::now_unix_seconds;
use vstd::prelude::*;
use vstd::string::StringExecFns;

verus! {

/// Name of the session record under the state directory.
pub const SESSION_RECORD_NAME: &'static str = "session.ron";

/// Name of the listener record under the state directory.
pub const LISTENER_RECORD_NAME: &'static str = "matrix_listener.ron";

/// Name of the responder record under the state directory.
pub const RESPONDER_RECORD_NAME: &'static str = "matrix_responder.ron";

/// Seconds that must pass before a room may be corrected again.
pub const COOLDOWN_SECONDS: u64 = 300;

/// Session credentials that survive restarts.
#[derive(Debug)]
pub struct SessionStorage {
    /// Matrix access token of the logged-in session, once one exists.
    pub access_token: Option<String>,
}

impl Default for SessionStorage {
    /// The first-run value: no session yet.
    fn default() -> (r: Self)
        ensures
            r.access_token is None,
    {
        SessionStorage { access_token: None }
    }
}

/// Matrix listener state that survives restarts.
#[derive(Debug)]
pub struct ListenerStorage {
    /// Last sync token handed back by the homeserver.
    pub last_sync: Option<String>,
    /// Room id mapped to the time of the last correction there, in seconds
    /// since the Unix epoch.
    pub last_correction_time: Vec<(String, u64)>,
}

impl Default for ListenerStorage {
    /// The first-run value: never synced, never corrected.
    fn default() -> (r: Self)
        ensures
            r.last_sync is None,
            r.last_correction_time@.len() == 0,
    {
        ListenerStorage { last_sync: None, last_correction_time: Vec::new() }
    }
}

/// Matrix responder state that survives restarts.
#[derive(Debug)]
pub struct ResponderStorage {
    /// Transaction counter behind the last id handed out.
    pub last_txn_id: u64,
}

impl Default for ResponderStorage {
    /// The first-run value: no transaction sent yet.
    fn default() -> (r: Self)
        ensures
            r.last_txn_id == 0,
    {
        ResponderStorage { last_txn_id: 0 }
    }
}

/// What the caller observed while opening, reading and parsing a record.
pub enum LoadEvent<T> {
    /// The record does not exist yet.
    Missing,
    /// The record exists but this process may not open it.
    Denied,
    /// Opening or reading failed some other way.
    Unreadable,
    /// The record was read but its content does not parse.
    Corrupt,
    /// The record was read and parsed to this value.
    Parsed(T),
}

/// What must follow a load attempt.
pub enum LoadOutcome<T> {
    /// The stored value; use it as it is.
    Ready(T),
    /// First run: use this default, and persist it at once so the record
    /// exists from now on.
    EstablishDefault(T),
    /// The load failed; the process must not continue with this state kind.
    Fail(StateError),
}

/// The load decision as a value: what follows each observation.
pub open spec fn load_step_spec<T>(ev: LoadEvent<T>, default_value: T) -> LoadOutcome<T> {
    match ev {
        LoadEvent::Parsed(v) => LoadOutcome::Ready(v),
        LoadEvent::Missing => LoadOutcome::EstablishDefault(default_value),
        LoadEvent::Corrupt => LoadOutcome::Fail(StateError::CorruptPersistedState),
        LoadEvent::Denied => LoadOutcome::Fail(StateError::AccessDenied),
        LoadEvent::Unreadable => LoadOutcome::Fail(StateError::Io),
    }
}

/// Decides a load attempt: a missing record is recovered silently by
/// establishing the default; a record that exists but cannot be opened or
/// parsed is fatal, and corrupt state is never replaced with a default.
pub fn load_step<T>(ev: LoadEvent<T>, default_value: T) -> (r: LoadOutcome<T>)
    ensures
        r == load_step_spec(ev, default_value),
        ev is Corrupt ==> r == LoadOutcome::<T>::Fail(StateError::CorruptPersistedState),
        ev is Corrupt || ev is Denied || ev is Unreadable ==> !(r is EstablishDefault) && !(r
            is Ready),
{
    match ev {
        LoadEvent::Parsed(v) => LoadOutcome::Ready(v),
        LoadEvent::Missing => LoadOutcome::EstablishDefault(default_value),
        LoadEvent::Corrupt => LoadOutcome::Fail(StateError::CorruptPersistedState),
        LoadEvent::Denied => LoadOutcome::Fail(StateError::AccessDenied),
        LoadEvent::Unreadable => LoadOutcome::Fail(StateError::Io),
    }
}

/// A record that has never existed is established as the default, and a
/// later load that reads that same default back hands it out unchanged.
pub proof fn lemma_first_run_round_trip<T>(d: T)
    ensures
        load_step_spec(LoadEvent::<T>::Missing, d) == LoadOutcome::EstablishDefault(d),
        load_step_spec(LoadEvent::Parsed(d), d) == LoadOutcome::Ready(d),
{
}

/// Decides a save: a value that failed to serialize surfaces as a typed
/// invariant violation instead of aborting; a serialized value overwrites
/// the record whole.
pub fn save_step(serialized: Option<String>) -> (r: Result<String, StateError>)
    ensures
        serialized matches Some(s) ==> (r matches Ok(out) && out == s),
        serialized is None ==> r == Result::<String, StateError>::Err(
            StateError::SerializationInvariantViolation,
        ),
{
    match serialized {
        Some(s) => Ok(s),
        None => Err(StateError::SerializationInvariantViolation),
    }
}

/// The timestamp stored for a room: the first binding of the key, if any.
pub open spec fn lookup_time(m: Seq<(Seq<char>, u64)>, k: Seq<char>) -> Option<u64>
    decreases m.len(),
{
    if m.len() == 0 {
        None
    } else if m[0].0 == k {
        Some(m[0].1)
    } else {
        lookup_time(m.drop_first(), k)
    }
}

proof fn lemma_lookup_at(m: Seq<(Seq<char>, u64)>, k: Seq<char>, i: int)
    requires
        0 <= i < m.len(),
        m[i].0 == k,
        forall|j: int| 0 <= j < i ==> m[j].0 != k,
    ensures
        lookup_time(m, k) == Some(m[i].1),
    decreases i,
{
    if i == 0 {
    } else {
        assert(m[0].0 != k);
        lemma_lookup_at(m.drop_first(), k, i - 1);
    }
}

proof fn lemma_lookup_none(m: Seq<(Seq<char>, u64)>, k: Seq<char>)
    requires
        forall|j: int| 0 <= j < m.len() ==> m[j].0 != k,
    ensures
        lookup_time(m, k) is None,
    decreases m.len(),
{
    if m.len() > 0 {
        lemma_lookup_none(m.drop_first(), k);
    }
}

/// Whether the cooldown has passed, given the stored time and the clock: no
/// stored time allows a correction, a stored time in the future never does.
pub open spec fn cooldown_passed(stored: Option<u64>, now: u64) -> bool {
    match stored {
        None => true,
        Some(t) => t <= now && now - t >= COOLDOWN_SECONDS,
    }
}

/// Decides the cooldown from the stored time and the clock reading.
pub fn cooldown_elapsed(stored: Option<u64>, now: u64) -> (r: bool)
    ensures
        r == cooldown_passed(stored, now),
{
    match stored {
        None => true,
        Some(t) => t <= now && now - t >= COOLDOWN_SECONDS,
    }
}

impl ListenerStorage {
    /// The time of the last correction in the room, if one was ever made.
    #[verifier::loop_isolation(false)]
    pub fn stored_correction_time(&self, room_id: &String) -> (r: Option<u64>)
        ensures
            r == lookup_time(self.last_correction_time.deep_view(), room_id@),
    {
        let m = &self.last_correction_time;
        let n = m.len();
        for i in 0..n
            invariant
                n == m.len(),
                forall|j: int| 0 <= j < i ==> (#[trigger] m.deep_view()[j]).0 != room_id@,
        {
            proof {
                assert(m.deep_view()[i as int].0 == m@[i as int].0@);
                assert(m.deep_view()[i as int].1 == m@[i as int].1);
            }
            if m[i].0 == *room_id {
                let t = m[i].1;
                proof {
                    lemma_lookup_at(m.deep_view(), room_id@, i as int);
                }
                return Some(t);
            }
        }
        proof {
            lemma_lookup_none(m.deep_view(), room_id@);
        }
        None
    }

    /// Whether the correction cooldown for the room has passed: true when
    /// the room was never corrected, whatever the clock says; otherwise
    /// decided against the wall clock, with a stored time in the future
    /// yielding false rather than an error.
    pub fn correction_time_cooldown(&self, room_id: &String) -> (r: bool)
        ensures
            lookup_time(self.last_correction_time.deep_view(), room_id@) is None ==> r,
    {
        let stored = self.stored_correction_time(room_id);
        let now = now_unix_seconds();
        cooldown_elapsed(stored, now)
    }
}

/// The character of one decimal digit.
pub open spec fn dec_digit(d: nat) -> char {
    if d == 0 {
        '0'
    } else if d == 1 {
        '1'
    } else if d == 2 {
        '2'
    } else if d == 3 {
        '3'
    } else if d == 4 {
        '4'
    } else if d == 5 {
        '5'
    } else if d == 6 {
        '6'
    } else if d == 7 {
        '7'
    } else if d == 8 {
        '8'
    } else {
        '9'
    }
}

/// The decimal representation of a number, most significant digit first, no
/// leading zeros.
pub open spec fn dec_rep(n: nat) -> Seq<char>
    decreases n,
{
    if n < 10 {
        seq![dec_digit(n)]
    } else {
        dec_rep(n / 10).push(dec_digit(n % 10))
    }
}

/// The one-character string of one decimal digit.
fn dec_digit_str(d: u64) -> (r: &'static str)
    requires
        d < 10,
    ensures
        r@ == seq![dec_digit(d as nat)],
{
    proof {
        reveal_strlit("0");
        reveal_strlit("1");
        reveal_strlit("2");
        reveal_strlit("3");
        reveal_strlit("4");
        reveal_strlit("5");
        reveal_strlit("6");
        reveal_strlit("7");
        reveal_strlit("8");
        reveal_strlit("9");
        assert("0"@ =~= seq!['0']);
        assert("1"@ =~= seq!['1']);
        assert("2"@ =~= seq!['2']);
        assert("3"@ =~= seq!['3']);
        assert("4"@ =~= seq!['4']);
        assert("5"@ =~= seq!['5']);
        assert("6"@ =~= seq!['6']);
        assert("7"@ =~= seq!['7']);
        assert("8"@ =~= seq!['8']);
        assert("9"@ =~= seq!['9']);
    }
    if d == 0 {
        "0"
    } else if d == 1 {
        "1"
    } else if d == 2 {
        "2"
    } else if d == 3 {
        "3"
    } else if d == 4 {
        "4"
    } else if d == 5 {
        "5"
    } else if d == 6 {
        "6"
    } else if d == 7 {
        "7"
    } else if d == 8 {
        "8"
    } else {
        "9"
    }
}

/// Writes a number in decimal.
pub fn u64_to_dec_string(n: u64) -> (r: String)
    ensures
        r@ == dec_rep(n as nat),
    decreases n,
{
    if n < 10 {
        String::from_str(dec_digit_str(n))
    } else {
        let rest = u64_to_dec_string(n / 10);
        let r = rest.concat(dec_digit_str(n % 10));
        proof {
            assert(r@ =~= dec_rep((n / 10) as nat).push(dec_digit((n % 10) as nat)));
        }
        r
    }
}

impl ResponderStorage {
    /// Advances the transaction counter and returns the new value's decimal
    /// form.  The caller must persist this record after consuming the id, or
    /// duplicate ids can recur across a restart.
    pub fn next_txn_id(&mut self) -> (r: String)
        requires
            old(self).last_txn_id < u64::MAX,
        ensures
            final(self).last_txn_id == old(self).last_txn_id + 1,
            r@ == dec_rep(final(self).last_txn_id as nat),
    {
        self.last_txn_id = self.last_txn_id + 1;
        u64_to_dec_string(self.last_txn_id)
    }
}

proof fn lemma_dec_rep_len(n: nat)
    ensures
        dec_rep(n).len() >= 1,
        n < 10 <==> dec_rep(n).len() == 1,
    decreases n,
{
    if n >= 10 {
        lemma_dec_rep_len(n / 10);
    }
}

proof fn lemma_dec_digit_inj(a: nat, b: nat)
    requires
        a < 10,
        b < 10,
        dec_digit(a) == dec_digit(b),
    ensures
        a == b,
{
}

/// Distinct counters have distinct decimal forms, so the transaction ids a
/// process hands out never repeat while its counter only grows.
pub proof fn lemma_dec_rep_injective(a: nat, b: nat)
    requires
        a != b,
    ensures
        dec_rep(a) != dec_rep(b),
    decreases a + b,
{
    if a < 10 && b < 10 {
        if dec_rep(a) == dec_rep(b) {
            assert(dec_rep(a)[0] == dec_rep(b)[0]);
            lemma_dec_digit_inj(a, b);
        }
    } else if a < 10 || b < 10 {
        lemma_dec_rep_len(a);
        lemma_dec_rep_len(b);
    } else {
        if dec_rep(a) == dec_rep(b) {
            let ra = dec_rep(a / 10);
            let rb = dec_rep(b / 10);
            assert(ra.push(dec_digit(a % 10)) == rb.push(dec_digit(b % 10)));
            assert(ra.push(dec_digit(a % 10)).len() == ra.len() + 1);
            assert(ra.len() == rb.len());
            assert(dec_digit(a % 10) == dec_digit(b % 10)) by {
                assert(ra.push(dec_digit(a % 10))[ra.len() as int] == dec_digit(a % 10));
                assert(rb.push(dec_digit(b % 10))[rb.len() as int] == dec_digit(b % 10));
            }
            lemma_dec_digit_inj((a % 10) as nat, (b % 10) as nat);
            assert(a % 10 == b % 10);
            assert(a / 10 != b / 10);
            assert(ra =~= rb) by {
                assert forall|i: int| 0 <= i < ra.len() implies ra[i] == rb[i] by {
                    assert(ra.push(dec_digit(a % 10))[i] == ra[i]);
                    assert(rb.push(dec_digit(b % 10))[i] == rb[i]);
                }
            }
            lemma_dec_rep_injective((a / 10) as nat, (b / 10) as nat);
        }
    }
}

} // verus!
