//! Session rules: which session ids and snapshot names are accepted, how
//! session ids are chosen and generated, how turn logs are named and
//! numbered, what a session's metadata and a snapshot's info file hold, when
//! cleanup removes a session, and how snapshots are ordered.
//!
//! The directories, files and locks themselves are handled by the caller,
//! which hands over the texts it read and writes back the texts made here.
use vstd::prelude::*;
use vstd::string::StringExecFns;

use crate::error::AgentError;
use crate::json::{
    json_error, json_parse_error, json_parses, json_pretty, json_string_field, json_u64_field,
    pretty_json, pretty_text, read_string_field, read_u64_field, set_field, set_number, set_number_field,
    set_string_field, set_text_field,
};
use crate::pattern::{
    compile_pattern, is_identifier, is_identifier_char, pattern_is_match, IDENTIFIER_PATTERN,
};
use crate::text::{
    lemma_ascii_byte_len, lemma_decimal_digits, lemma_str_lt_irreflexive, lemma_str_lt_total,
    lemma_str_lt_transitive, lemma_zero_padding, unsigned_digits, digits_value,
    all_digits, byte_len, chars_match_at, chars_of, contains_char, contains_double_dot, decimal,
    decimal_padded, ends_with, has_double_dot, has_prefix, has_suffix, is_digit, parse_u32,
    parse_u32_spec, push_decimal, push_decimal_padded, starts_with, str_less, str_lt,
    string_from_chars,
};

verus! {

broadcast use vstd::string::group_string_axioms;

/// Longest accepted session id, in bytes.
pub const MAX_SESSION_ID_LEN: usize = 128;

/// Longest accepted snapshot name, in bytes.
pub const MAX_SNAPSHOT_NAME_LEN: usize = 64;

/// Why `session_id` is rejected, or `None` when it is accepted: it must be
/// 1 to 128 bytes of ASCII letters, digits, hyphens and underscores.
pub open spec fn session_id_error(session_id: Seq<char>) -> Option<Seq<char>> {
    let n = byte_len(session_id);
    if n == 0 || n > MAX_SESSION_ID_LEN {
        Some("Session ID must be 1-128 characters, got "@ + decimal(n as nat))
    } else if !is_identifier(session_id) {
        Some(
            "Invalid session_id format '"@ + session_id
                + "'. Only alphanumeric, hyphens, and underscores allowed."@,
        )
    } else {
        None
    }
}

/// The outcome of validating `value` against a rule that gives `error`.
pub open spec fn validation_result(r: Result<(), AgentError>, error: Option<Seq<char>>) -> bool {
    match r {
        Ok(()) => error is None,
        Err(AgentError::ConfigError(m)) => error == Some(m@),
        Err(_) => false,
    }
}

fn identifier_matches(s: &str) -> (b: bool)
    ensures
        b == is_identifier(s@),
{
    match compile_pattern(IDENTIFIER_PATTERN) {
        Ok(p) => pattern_is_match(&p, s),
        Err(_) => false,
    }
}

/// Validates a session id: 1 to 128 bytes of ASCII letters, digits, hyphens
/// and underscores. A rejected id gives a configuration error.
pub fn validate_session_id(session_id: &str) -> (r: Result<(), AgentError>)
    ensures
        validation_result(r, session_id_error(session_id@)),
{
    let n = session_id.len();
    if n == 0 || n > MAX_SESSION_ID_LEN {
        let mut m = String::from_str("Session ID must be 1-128 characters, got ");
        push_decimal(&mut m, n as u64);
        return Err(AgentError::config_error(m));
    }
    if !identifier_matches(session_id) {
        let mut m = String::from_str("Invalid session_id format '");
        m.append(session_id);
        m.append("'. Only alphanumeric, hyphens, and underscores allowed.");
        return Err(AgentError::config_error(m));
    }
    Ok(())
}

/// Whether `name` holds a path separator or a `..` sequence.
pub open spec fn has_path_parts(name: Seq<char>) -> bool {
    name.contains('/') || name.contains('\\') || has_double_dot(name)
}

/// Why a snapshot `name` is rejected, or `None` when it is accepted: it must
/// be 1 to 64 bytes, hold no path separator or `..`, and be made of ASCII
/// letters, digits, hyphens and underscores.
pub open spec fn snapshot_name_error(name: Seq<char>) -> Option<Seq<char>> {
    let n = byte_len(name);
    if n == 0 || n > MAX_SNAPSHOT_NAME_LEN {
        Some("Snapshot name must be 1-64 characters, got "@ + decimal(n as nat))
    } else if has_path_parts(name) {
        Some(
            "Invalid snapshot name '"@ + name
                + "': path separators and '..' are not allowed"@,
        )
    } else if !is_identifier(name) {
        Some(
            "Invalid snapshot name '"@ + name
                + "'. Only alphanumeric, hyphens, and underscores allowed."@,
        )
    } else {
        None
    }
}

/// Validates a snapshot name: 1 to 64 bytes, no path separators or `..`,
/// only ASCII letters, digits, hyphens and underscores. A rejected name gives
/// a configuration error.
pub fn validate_snapshot_name(name: &str) -> (r: Result<(), AgentError>)
    ensures
        validation_result(r, snapshot_name_error(name@)),
{
    let n = name.len();
    if n == 0 || n > MAX_SNAPSHOT_NAME_LEN {
        let mut m = String::from_str("Snapshot name must be 1-64 characters, got ");
        push_decimal(&mut m, n as u64);
        return Err(AgentError::config_error(m));
    }
    if contains_char(name, '/') || contains_char(name, '\\') || contains_double_dot(name) {
        let mut m = String::from_str("Invalid snapshot name '");
        m.append(name);
        m.append("': path separators and '..' are not allowed");
        return Err(AgentError::config_error(m));
    }
    if !identifier_matches(name) {
        let mut m = String::from_str("Invalid snapshot name '");
        m.append(name);
        m.append("'. Only alphanumeric, hyphens, and underscores allowed.");
        return Err(AgentError::config_error(m));
    }
    Ok(())
}


/// Name of the file that holds the session id.
pub const SESSION_ID_FILE: &'static str = "session_id";

/// Name of the session metadata file.
pub const METADATA_FILE: &'static str = "session_meta.json";

/// Name of the human-readable session log.
pub const LOG_FILE: &'static str = "session.log";

/// Name of the session lock file.
pub const LOCK_FILE: &'static str = "session.lock";

/// Name of the snapshot information file.
pub const SNAPSHOT_INFO_FILE: &'static str = "snapshot_info.json";

/// Start of a turn log file name.
pub const TURN_PREFIX: &'static str = "turn_";

/// End of a turn log file name.
pub const TURN_SUFFIX: &'static str = ".jsonl";

/// Name of the JSONL event log of turn `turn` (1-indexed): `turn_NNN.jsonl`,
/// the number zero-padded to three digits.
pub open spec fn turn_file_name_spec(turn: nat) -> Seq<char> {
    TURN_PREFIX@ + decimal_padded(turn, 3) + TURN_SUFFIX@
}

/// Name of the JSONL event log of turn `turn`.
pub fn turn_file_name(turn: usize) -> (name: String)
    ensures
        name@ == turn_file_name_spec(turn as nat),
{
    let mut name = String::from_str(TURN_PREFIX);
    push_decimal_padded(&mut name, turn as u64, 3);
    name.append(TURN_SUFFIX);
    name
}

/// Whether `name` looks like a turn log: `turn_` ... `.jsonl`.
pub open spec fn is_turn_log_name_spec(name: Seq<char>) -> bool {
    has_prefix(name, TURN_PREFIX@) && has_suffix(name, TURN_SUFFIX@)
}

/// Whether `name` looks like a turn log (`turn_*.jsonl`); such files are
/// copied into and out of snapshots.
pub fn is_turn_log_name(name: &str) -> (b: bool)
    ensures
        b == is_turn_log_name_spec(name@),
{
    starts_with(name, TURN_PREFIX) && ends_with(name, TURN_SUFFIX)
}

/// The turn number of a turn log file name: `turn_` + a `u32` + `.jsonl`.
pub open spec fn turn_number_of(name: Seq<char>) -> Option<u32> {
    let p = TURN_PREFIX@;
    let x = TURN_SUFFIX@;
    if has_prefix(name, p) && has_suffix(name.skip(p.len() as int), x) {
        let rest = name.skip(p.len() as int);
        parse_u32_spec(rest.take(rest.len() - x.len()))
    } else {
        None
    }
}

/// Parses the turn number out of a `turn_NNN.jsonl` file name.
pub fn parse_turn_file_name(name: &str) -> (r: Option<u32>)
    ensures
        r == turn_number_of(name@),
{
    let chars = chars_of(name);
    let prefix = chars_of(TURN_PREFIX);
    let suffix = chars_of(TURN_SUFFIX);
    if !chars_match_at(&chars, 0, &prefix) {
        proof {
            assert(chars@.take(prefix@.len() as int) =~= chars@.subrange(0, prefix@.len() as int));
        }
        return None;
    }
    assert(chars@.take(prefix@.len() as int) =~= chars@.subrange(0, prefix@.len() as int));
    let rest_len = chars.len() - prefix.len();
    let ghost rest = name@.skip(prefix@.len() as int);
    if suffix.len() > rest_len {
        return None;
    }
    let at = chars.len() - suffix.len();
    if !chars_match_at(&chars, at, &suffix) {
        proof {
            assert(rest.skip(rest.len() - suffix@.len()) =~= chars@.subrange(at as int, chars@.len() as int));
        }
        return None;
    }
    proof {
        assert(rest.skip(rest.len() - suffix@.len()) =~= chars@.subrange(at as int, chars@.len() as int));
    }
    let middle = string_from_chars(&chars, prefix.len(), at);
    proof {
        assert(middle@ =~= rest.take(rest.len() - suffix@.len()));
    }
    parse_u32(middle.as_str())
}

/// The highest turn number among `names` (0 when there is none).
pub open spec fn max_turn_number(names: Seq<Seq<char>>) -> u32
    decreases names.len(),
{
    if names.len() == 0 {
        0
    } else {
        let m = max_turn_number(names.drop_last());
        match turn_number_of(names.last()) {
            Some(n) => if n > m {
                n
            } else {
                m
            },
            None => m,
        }
    }
}

/// The last logged turn is the highest turn number among the names, at
/// whatever position they come: no turn log's number exceeds it, and it is
/// the number of one of them, or 0 when no name is a turn log.
pub proof fn law_last_turn_is_the_highest_logged(names: Seq<Seq<char>>)
    ensures
        forall|i: int|
            0 <= i < names.len() && (#[trigger] turn_number_of(names[i])) is Some ==> turn_number_of(names[i])->0
                <= max_turn_number(names),
        max_turn_number(names) == 0 || exists|i: int|
            0 <= i < names.len() && #[trigger] turn_number_of(names[i]) == Some(max_turn_number(names)),
        (forall|i: int| 0 <= i < names.len() ==> (#[trigger] turn_number_of(names[i])) is None) ==> max_turn_number(
            names,
        ) == 0,
    decreases names.len(),
{
    if names.len() > 0 {
        let init = names.drop_last();
        law_last_turn_is_the_highest_logged(init);
        assert forall|i: int|
            0 <= i < names.len() && (#[trigger] turn_number_of(names[i])) is Some implies turn_number_of(
                names[i],
            )->0 <= max_turn_number(names) by {
            if i < names.len() - 1 {
                assert(names[i] == init[i]);
            }
        }
        if max_turn_number(names) != 0 {
            if max_turn_number(names) == max_turn_number(init) && (turn_number_of(names.last()) != Some(
                max_turn_number(names),
            )) {
                let j = choose|j: int| 0 <= j < init.len() && turn_number_of(init[j]) == Some(max_turn_number(init));
                assert(names[j] == init[j]);
            } else {
                assert(turn_number_of(names[names.len() - 1]) == Some(max_turn_number(names)));
            }
        }
        if forall|i: int| 0 <= i < names.len() ==> (#[trigger] turn_number_of(names[i])) is None {
            assert forall|i: int| 0 <= i < init.len() implies (#[trigger] turn_number_of(init[i])) is None by {
                assert(names[i] == init[i]);
            }
            assert(turn_number_of(names[names.len() - 1]) is None);
        }
    }
}

/// Highest turn number already logged, given the file names in the session
/// directory (0 if none). A session reused across runs continues its turn
/// sequence from there.
pub fn last_turn_number(names: &Vec<String>) -> (n: u32)
    ensures
        n == max_turn_number(crate::text::views(names@)),
        forall|i: int|
            0 <= i < names@.len() && (#[trigger] turn_number_of(names@[i]@)) is Some ==> turn_number_of(
                names@[i]@,
            )->0 <= n,
        n == 0 || exists|i: int| 0 <= i < names@.len() && #[trigger] turn_number_of(names@[i]@) == Some(n),
{
    proof {
        let v = crate::text::views(names@);
        law_last_turn_is_the_highest_logged(v);
        assert forall|i: int|
            0 <= i < names@.len() && (#[trigger] turn_number_of(names@[i]@)) is Some implies turn_number_of(
                names@[i]@,
            )->0 <= max_turn_number(v) by {
            assert(v[i] == names@[i]@);
        }
        if max_turn_number(v) != 0 {
            let j = choose|j: int| 0 <= j < v.len() && turn_number_of(v[j]) == Some(max_turn_number(v));
            assert(v[j] == names@[j]@);
            assert(turn_number_of(names@[j]@) == Some(max_turn_number(v)));
        }
    }
    let ghost v = crate::text::views(names@);
    let mut max: u32 = 0;
    let mut i: usize = 0;
    while i < names.len()
        invariant
            i <= names@.len(),
            v == crate::text::views(names@),
            max == max_turn_number(v.take(i as int)),
        decreases names@.len() - i,
    {
        let ghost t = v.take(i + 1);
        assert(t.drop_last() =~= v.take(i as int));
        assert(t.last() == names@[i as int]@);
        match parse_turn_file_name(names[i].as_str()) {
            Some(n) => {
                if n > max {
                    max = n;
                }
            },
            None => {},
        }
        i = i + 1;
    }
    assert(v.take(names@.len() as int) =~= v);
    max
}


/// `uuid::Uuid`.
#[verifier::external_type_specification]
#[verifier::external_body]
pub struct ExUuid(uuid::Uuid);

/// The date format of generated session ids: year, month, day.
pub const SESSION_DATE_FORMAT: &'static str = "%Y%m%d";

/// A character that `%Y%m%d` can produce: a digit or a year sign.
pub open spec fn is_date_char(c: char) -> bool {
    is_digit(c) || c == '+' || c == '-'
}

/// Today's local date: `chrono::Local::now()` formatted by `DateTime::format`
/// with `%Y%m%d`, turned into a `String`. chrono pads the year to at least 4
/// digits (with a sign outside 0..=9999) and the month and day to 2 digits.
/// Nothing more is stated: the date depends on the clock.
#[verifier::external_body]
fn local_date_text(fmt: &str) -> (s: String)
    requires
        fmt@ == SESSION_DATE_FORMAT@,
    ensures
        s@.len() >= 8,
        forall|i: int| 0 <= i < s@.len() ==> is_date_char(#[trigger] s@[i]),
{
    chrono::Local::now().format(fmt).to_string()
}

/// A random (version 4) UUID, from `uuid::Uuid::new_v4`.
#[verifier::external_body]
fn new_uuid_v4() -> uuid::Uuid {
    uuid::Uuid::new_v4()
}

/// A lowercase hexadecimal digit.
pub open spec fn is_lower_hex(c: char) -> bool {
    is_digit(c) || ('a' <= c && c <= 'f')
}

/// The hyphenated lowercase form of a UUID: 36 characters, hyphens at 8,
/// 13, 18 and 23, lowercase hex digits elsewhere.
pub open spec fn is_hyphenated_uuid(s: Seq<char>) -> bool {
    &&& s.len() == 36
    &&& forall|i: int|
        0 <= i < 36 ==> if i == 8 || i == 13 || i == 18 || i == 23 {
            #[trigger] s[i] == '-'
        } else {
            is_lower_hex(s[i])
        }
}

/// `Uuid`'s `Display` (its hyphenated lowercase form), turned into a `String`.
#[verifier::external_body]
fn uuid_text(u: &uuid::Uuid) -> (s: String)
    ensures
        is_hyphenated_uuid(s@),
{
    u.to_string()
}

/// A session id made of a date and a UUID: `date_` followed by the first
/// eight characters of the UUID.
pub open spec fn session_id_of(date: Seq<char>, uuid: Seq<char>) -> Seq<char> {
    date + "_"@ + (if uuid.len() <= 8 {
        uuid
    } else {
        uuid.take(8)
    })
}

/// A session id made of `date` and the first eight characters of `uuid`.
pub fn session_id_from_parts(date: &str, uuid: &str) -> (id: String)
    ensures
        id@ == session_id_of(date@, uuid@),
{
    let chars = chars_of(uuid);
    let n = if chars.len() <= 8 {
        chars.len()
    } else {
        8
    };
    let head = string_from_chars(&chars, 0, n);
    let mut id = String::from_str(date);
    id.append("_");
    id.append(head.as_str());
    proof {
        assert(id@ =~= session_id_of(date@, uuid@));
    }
    id
}

/// A generated session id: `YYYYMMDD_` followed by eight lowercase hex digits
/// of a random UUID.
pub open spec fn is_generated_session_id(id: Seq<char>) -> bool {
    exists|date: Seq<char>, uuid: Seq<char>|
        {
            &&& date.len() >= 8
            &&& (forall|i: int| 0 <= i < date.len() ==> is_date_char(#[trigger] date[i]))
            &&& is_hyphenated_uuid(uuid)
            &&& id == #[trigger] session_id_of(date, uuid)
        }
}

/// Generates a new session id from today's local date and a random UUID
/// (format `YYYYMMDD_xxxxxxxx`).
pub fn generate_session_id() -> (id: String)
    ensures
        is_generated_session_id(id@),
{
    let date = local_date_text(SESSION_DATE_FORMAT);
    let u = new_uuid_v4();
    let text = uuid_text(&u);
    let id = session_id_from_parts(date.as_str(), text.as_str());
    assert(id@ == session_id_of(date@, text@));
    id
}

/// The outcome of resolving a session id from the command line (`cli`) and
/// the `PHI_SESSION_ID` environment variable (`env`): a given id is validated
/// and kept; an empty environment value counts as absent; with neither, a
/// new id is generated.
pub open spec fn resolved_session_id(
    r: Result<String, AgentError>,
    cli: Option<Seq<char>>,
    env: Option<Seq<char>>,
) -> bool {
    let given = match cli {
        Some(id) => Some(id),
        None => match env {
            Some(e) => if e.len() > 0 {
                Some(e)
            } else {
                None
            },
            None => None,
        },
    };
    match given {
        Some(id) => match r {
            Ok(s) => session_id_error(id) is None && s@ == id,
            Err(AgentError::ConfigError(m)) => session_id_error(id) == Some(m@),
            Err(_) => false,
        },
        None => r matches Ok(s) && is_generated_session_id(s@),
    }
}

/// Resolves the session id: the command-line value first, then the
/// `PHI_SESSION_ID` environment value (`env_session_id`), otherwise a newly
/// generated one.
pub fn resolve_session_id(cli_session_id: Option<&str>, env_session_id: Option<&str>) -> (r: Result<String, AgentError>)
    ensures
        resolved_session_id(
            r,
            match cli_session_id {
                Some(s) => Some(s@),
                None => None,
            },
            match env_session_id {
                Some(s) => Some(s@),
                None => None,
            },
        ),
{
    match cli_session_id {
        Some(id) => {
            match validate_session_id(id) {
                Ok(()) => return Ok(String::from_str(id)),
                Err(e) => return Err(e),
            }
        },
        None => {},
    }
    match env_session_id {
        Some(id) => {
            if !id.is_empty() {
                match validate_session_id(id) {
                    Ok(()) => return Ok(String::from_str(id)),
                    Err(e) => return Err(e),
                }
            }
        },
        None => {},
    }
    Ok(generate_session_id())
}

/// Whether the cleanup of expired sessions removes a session directory:
/// locked sessions stay; a session without metadata goes; otherwise it goes
/// when its last activity (`age_days` days ago, when readable) is more than
/// `max_age_days` days old.
pub open spec fn removes_session(locked: bool, has_metadata: bool, age_days: Option<i64>, max_age_days: i64) -> bool {
    !locked && (!has_metadata || (age_days matches Some(a) && a > max_age_days))
}

/// Decides whether cleanup removes a session directory.
pub fn should_remove_session(locked: bool, has_metadata: bool, age_days: Option<i64>, max_age_days: i64) -> (b: bool)
    ensures
        b == removes_session(locked, has_metadata, age_days, max_age_days),
{
    if locked {
        return false;
    }
    if !has_metadata {
        return true;
    }
    match age_days {
        Some(a) => a > max_age_days,
        None => false,
    }
}

/// Milliseconds in a day.
pub const MS_PER_DAY: i128 = 86_400_000;

/// The whole days from `since_ms` to `now_ms` (Unix milliseconds), rounded
/// toward zero as `chrono::TimeDelta::num_days` rounds.
pub open spec fn whole_days(now_ms: int, since_ms: int) -> int {
    let d = now_ms - since_ms;
    if d >= 0 {
        d / (MS_PER_DAY as int)
    } else {
        -((-d) / (MS_PER_DAY as int))
    }
}

/// The Unix time in milliseconds of an RFC 3339 timestamp, as
/// `chrono::DateTime::parse_from_rfc3339` followed by `timestamp_millis`
/// gives it; `None` when the text does not parse.
pub uninterp spec fn rfc3339_unix_ms(text: Seq<char>) -> Option<i64>;

/// `chrono::DateTime::parse_from_rfc3339(text)`, read as Unix milliseconds
/// with `timestamp_millis`; `None` on a parse error.
#[verifier::external_body]
fn parse_rfc3339_unix_ms(text: &str) -> (r: Option<i64>)
    ensures
        r == rfc3339_unix_ms(text@),
{
    match chrono::DateTime::parse_from_rfc3339(text) {
        Ok(t) => Some(t.timestamp_millis()),
        Err(_) => None,
    }
}

/// Whole days between two Unix times in milliseconds, rounded toward zero.
pub fn whole_days_between(now_ms: i64, since_ms: i64) -> (d: i64)
    ensures
        d == whole_days(now_ms as int, since_ms as int),
{
    let delta: i128 = now_ms as i128 - since_ms as i128;
    if delta >= 0 {
        let q: i128 = delta / MS_PER_DAY;
        assert(q <= delta) by (nonlinear_arith)
            requires
                q == (delta as int) / 86_400_000int,
                delta >= 0,
        ;
        q as i64
    } else {
        let q: i128 = (-delta) / MS_PER_DAY;
        assert(q <= -delta) by (nonlinear_arith)
            requires
                q == (-(delta as int)) / 86_400_000int,
                delta < 0,
        ;
        (-q) as i64
    }
}

/// A session last active at `since_ms` is more than `max_age_days` whole
/// days old at `now_ms` exactly when at least `max_age_days + 1` full days
/// of milliseconds have passed.
pub proof fn law_expiry_counts_full_days(now_ms: int, since_ms: int, max_age_days: int)
    requires
        max_age_days >= 0,
    ensures
        whole_days(now_ms, since_ms) > max_age_days <==> now_ms - since_ms >= (max_age_days + 1) * 86_400_000,
{
    let d = now_ms - since_ms;
    if d >= 0 {
        let q = d / 86_400_000;
        assert(q * 86_400_000 <= d < (q + 1) * 86_400_000) by (nonlinear_arith)
            requires
                q == d / 86_400_000,
                d >= 0,
        ;
        assert(q > max_age_days <==> d >= (max_age_days + 1) * 86_400_000) by (nonlinear_arith)
            requires
                q * 86_400_000 <= d < (q + 1) * 86_400_000,
                max_age_days >= 0,
        ;
    } else {
        let q = (-d) / 86_400_000;
        assert(q >= 0) by (nonlinear_arith)
            requires
                q == (-d) / 86_400_000,
                d < 0,
        ;
        assert((max_age_days + 1) * 86_400_000 > 0) by (nonlinear_arith)
            requires
                max_age_days >= 0,
        ;
    }
}

/// How many whole days ago `last_active` (an RFC 3339 timestamp) was at
/// `now_ms`; `None` when it does not parse.
pub open spec fn age_days_spec(last_active: Seq<char>, now_ms: i64) -> Option<i64> {
    match rfc3339_unix_ms(last_active) {
        Some(t) => Some(whole_days(now_ms as int, t as int) as i64),
        None => None,
    }
}

/// The age in whole days of a session last active at `last_active` (an
/// RFC 3339 timestamp), seen at `now_unix_ms`.
pub fn session_age_days(last_active: &str, now_unix_ms: i64) -> (r: Option<i64>)
    ensures
        r == age_days_spec(last_active@, now_unix_ms),
{
    match parse_rfc3339_unix_ms(last_active) {
        Some(t) => Some(whole_days_between(now_unix_ms, t)),
        None => None,
    }
}

/// The age in days that a session's metadata records: that of its
/// `last_active_at` string, when it has one that parses.
pub open spec fn recorded_age_days(meta: Seq<char>, now_ms: i64) -> Option<i64> {
    match json_string_field(meta, "last_active_at"@) {
        Some(s) => age_days_spec(s, now_ms),
        None => None,
    }
}

/// Whether the metadata text `meta` is there and fails to parse as JSON.
pub open spec fn unreadable_metadata(meta: Option<Seq<char>>) -> bool {
    meta matches Some(t) && !json_parses(t)
}

/// The view of an optional text.
pub open spec fn opt_text(o: Option<&str>) -> Option<Seq<char>> {
    match o {
        Some(t) => Some(t@),
        None => None,
    }
}

/// Decides whether the cleanup of expired sessions removes a session, from
/// whether it is locked and the text of its metadata file (`None` when there
/// is none). Metadata that is not JSON fails the cleanup with the parser's
/// message; otherwise the session goes as `removes_session` says, with the
/// age that the metadata records.
pub fn cleanup_decision(locked: bool, meta_text: Option<&str>, now_unix_ms: i64, max_age_days: i64) -> (r: Result<
    bool,
    AgentError,
>)
    ensures
        !locked && unreadable_metadata(opt_text(meta_text)) ==> (r matches Err(AgentError::Internal(m))
            && json_error(opt_text(meta_text)->0) == Some(m@)),
        !(!locked && unreadable_metadata(opt_text(meta_text))) ==> r == Ok::<bool, AgentError>(
            removes_session(
                locked,
                meta_text is Some,
                match meta_text {
                    Some(t) => recorded_age_days(t@, now_unix_ms),
                    None => None,
                },
                max_age_days,
            ),
        ),
{
    if locked {
        return Ok(false);
    }
    match meta_text {
        None => Ok(true),
        Some(t) => {
            match json_parse_error(t) {
                Some(m) => {
                    return Err(AgentError::Internal(m));
                },
                None => {},
            }
            let age: Option<i64> = match read_string_field(t, "last_active_at") {
                Some(s) => session_age_days(s.as_str(), now_unix_ms),
                None => None,
            };
            Ok(should_remove_session(false, true, age, max_age_days))
        },
    }
}


/// `std::path::PathBuf`.
#[verifier::external_type_specification]
#[verifier::external_body]
pub struct ExPathBuf(std::path::PathBuf);

/// Info about a saved snapshot.
pub struct SnapshotInfo {
    /// Snapshot name.
    pub name: String,
    /// Id of the session this snapshot was taken from.
    pub session_id: String,
    /// ISO-8601 timestamp of when the snapshot was created.
    pub created_at: String,
    /// Number of turns captured in the snapshot.
    pub turn_count: u32,
    /// Path to the snapshot directory on disk.
    pub path: std::path::PathBuf,
}

/// Where a snapshot created at `created_at` goes in a newest-first list:
/// after every snapshot created later.
pub open spec fn insert_position(sorted: Seq<SnapshotInfo>, created_at: Seq<char>) -> nat
    decreases sorted.len(),
{
    if sorted.len() == 0 {
        0
    } else if str_lt(created_at, sorted[0].created_at@) {
        1 + insert_position(sorted.drop_first(), created_at)
    } else {
        0
    }
}

/// `snapshots` ordered by creation time, newest first; snapshots created at
/// the same time keep their relative order (a stable sort).
pub open spec fn newest_first(snapshots: Seq<SnapshotInfo>) -> Seq<SnapshotInfo>
    decreases snapshots.len(),
{
    if snapshots.len() == 0 {
        snapshots
    } else {
        let rest = newest_first(snapshots.drop_first());
        let p = insert_position(rest, snapshots[0].created_at@) as int;
        rest.take(p) + seq![snapshots[0]] + rest.skip(p)
    }
}

proof fn lemma_insert_position(sorted: Seq<SnapshotInfo>, created_at: Seq<char>, i: int)
    requires
        0 <= i <= sorted.len(),
        forall|j: int| 0 <= j < i ==> str_lt(created_at, #[trigger] sorted[j].created_at@),
    ensures
        insert_position(sorted, created_at) == i + insert_position(sorted.skip(i), created_at),
    decreases i,
{
    if i > 0 {
        assert(sorted.drop_first().skip(i - 1) =~= sorted.skip(i));
        assert forall|j: int| 0 <= j < i - 1 implies str_lt(
            created_at,
            #[trigger] sorted.drop_first()[j].created_at@,
        ) by {
            assert(sorted.drop_first()[j] == sorted[j + 1]);
        }
        lemma_insert_position(sorted.drop_first(), created_at, i - 1);
    } else {
        assert(sorted.skip(0) =~= sorted);
    }
}

/// Orders snapshots newest first, as a stable sort by `created_at`
/// (descending) does.
pub fn sort_snapshots_newest_first(snapshots: Vec<SnapshotInfo>) -> (r: Vec<SnapshotInfo>)
    ensures
        r@ == newest_first(snapshots@),
{
    let ghost given = snapshots@;
    let mut input = snapshots;
    let mut sorted: Vec<SnapshotInfo> = Vec::new();
    assert(given.skip(given.len() as int) =~= Seq::<SnapshotInfo>::empty());
    while input.len() > 0
        invariant
            input@ == given.take(input@.len() as int),
            input@.len() <= given.len(),
            sorted@ == newest_first(given.skip(input@.len() as int)),
        decreases input@.len(),
    {
        let k = input.len();
        let x = input.pop().unwrap();
        proof {
            let tail = given.skip(k - 1);
            assert(tail.drop_first() =~= given.skip(k as int));
            assert(tail[0] == x);
            assert(input@ =~= given.take(k - 1));
        }
        let mut pos: usize = 0;
        while pos < sorted.len() && str_less(x.created_at.as_str(), sorted[pos].created_at.as_str())
            invariant
                pos <= sorted@.len(),
                forall|j: int| 0 <= j < pos ==> str_lt(x.created_at@, #[trigger] sorted@[j].created_at@),
            decreases sorted@.len() - pos,
        {
            pos = pos + 1;
        }
        proof {
            lemma_insert_position(sorted@, x.created_at@, pos as int);
            if pos < sorted@.len() {
                assert(sorted@.skip(pos as int)[0] == sorted@[pos as int]);
            }
        }
        let ghost before = sorted@;
        sorted.insert(pos, x);
        proof {
            assert(sorted@ =~= before.take(pos as int) + seq![x] + before.skip(pos as int));
        }
    }
    sorted
}

/// The error of a session whose lock another process holds.
pub fn session_in_use(dir_name: &str) -> (e: AgentError)
    ensures
        e matches AgentError::ResourceUnavailable(m) && m@ == "Session '"@ + dir_name@
            + "' is currently in use by another process"@,
{
    let mut m = String::from_str("Session '");
    m.append(dir_name);
    m.append("' is currently in use by another process");
    AgentError::resource_unavailable(m)
}

/// The error of a snapshot that does not exist; `location`, when given, is
/// where it was looked for.
pub fn snapshot_not_found(name: &str, location: Option<&str>) -> (e: AgentError)
    ensures
        e matches AgentError::ConfigError(m) && m@ == "Snapshot '"@ + name@ + "' not found"@ + match location {
            Some(l) => " at "@ + l@,
            None => Seq::empty(),
        },
{
    let mut m = String::from_str("Snapshot '");
    m.append(name);
    m.append("' not found");
    match location {
        Some(l) => {
            m.append(" at ");
            m.append(l);
        },
        None => {},
    }
    AgentError::config_error(m)
}

/// How many of `names` are turn logs.
pub open spec fn turn_log_count(names: Seq<Seq<char>>) -> nat
    decreases names.len(),
{
    if names.len() == 0 {
        0
    } else {
        turn_log_count(names.drop_last()) + if is_turn_log_name_spec(names.last()) {
            1nat
        } else {
            0nat
        }
    }
}

proof fn lemma_turn_log_count_bound(names: Seq<Seq<char>>)
    ensures
        turn_log_count(names) <= names.len(),
    decreases names.len(),
{
    if names.len() > 0 {
        lemma_turn_log_count_bound(names.drop_last());
    }
}

/// How many of the file `names` of a session directory are turn logs: the
/// turn count recorded in a snapshot.
pub fn count_turn_logs(names: &Vec<String>) -> (n: u32)
    requires
        names@.len() <= u32::MAX,
    ensures
        n == turn_log_count(names@.map_values(|s: String| s@)),
{
    let ghost all = names@.map_values(|s: String| s@);
    let mut n: u32 = 0;
    let mut i: usize = 0;
    while i < names.len()
        invariant
            i <= names@.len() <= u32::MAX,
            all == names@.map_values(|s: String| s@),
            n == turn_log_count(all.take(i as int)),
        decreases names@.len() - i,
    {
        proof {
            assert(all.take(i + 1).drop_last() =~= all.take(i as int));
            lemma_turn_log_count_bound(all.take(i as int));
        }
        if is_turn_log_name(names[i].as_str()) {
            n = n + 1;
        }
        i = i + 1;
    }
    assert(all.take(names@.len() as int) =~= all);
    n
}

/// The info of a listed snapshot from what its info file holds: a missing
/// session id or creation time reads `-`, a missing turn count 0 (a larger
/// count keeps its low 32 bits).
pub fn snapshot_info(
    name: String,
    session_id: Option<&str>,
    created_at: Option<&str>,
    turn_count: Option<u64>,
    path: std::path::PathBuf,
) -> (s: SnapshotInfo)
    ensures
        s.name@ == name@,
        s.session_id@ == match session_id {
            Some(x) => x@,
            None => "-"@,
        },
        s.created_at@ == match created_at {
            Some(x) => x@,
            None => "-"@,
        },
        s.turn_count == match turn_count {
            Some(n) => n as u32,
            None => 0u32,
        },
        s.path == path,
{
    let session_id = match session_id {
        Some(x) => String::from_str(x),
        None => String::from_str("-"),
    };
    let created_at = match created_at {
        Some(x) => String::from_str(x),
        None => String::from_str("-"),
    };
    let turn_count: u32 = match turn_count {
        Some(n) => n as u32,
        None => 0,
    };
    SnapshotInfo { name, session_id, created_at, turn_count, path }
}

/// A text read back from an optional field, `-` when it is missing.
pub open spec fn or_dash(o: Option<Seq<char>>) -> Seq<char> {
    match o {
        Some(x) => x,
        None => "-"@,
    }
}

/// The info of a listed snapshot from the text of its info file: the text
/// must be JSON (else the parser's message is the error); its `session_id`,
/// `created_at` and `turn_count` fields are read as `snapshot_info` reads them.
pub fn snapshot_info_from_text(name: String, info_text: &str, path: std::path::PathBuf) -> (r: Result<
    SnapshotInfo,
    AgentError,
>)
    ensures
        !json_parses(info_text@) ==> (r matches Err(AgentError::Internal(m)) && json_error(info_text@) == Some(
            m@,
        )),
        json_parses(info_text@) ==> (r matches Ok(s) && s.name@ == name@ && s.session_id@ == or_dash(
            json_string_field(info_text@, "session_id"@),
        ) && s.created_at@ == or_dash(json_string_field(info_text@, "created_at"@)) && s.turn_count
            == match json_u64_field(info_text@, "turn_count"@) {
            Some(n) => n as u32,
            None => 0u32,
        } && s.path == path),
{
    match json_parse_error(info_text) {
        Some(m) => {
            return Err(AgentError::Internal(m));
        },
        None => {},
    }
    let session_id = read_string_field(info_text, "session_id");
    let created_at = read_string_field(info_text, "created_at");
    let turn_count = read_u64_field(info_text, "turn_count");
    let sid: Option<&str> = match &session_id {
        Some(x) => Some(x.as_str()),
        None => None,
    };
    let created: Option<&str> = match &created_at {
        Some(x) => Some(x.as_str()),
        None => None,
    };
    Ok(snapshot_info(name, sid, created, turn_count, path))
}

/// The metadata of a session after it is used at `now` (an RFC 3339
/// timestamp): the old metadata, or a new object with `session_id` and
/// `created_at`, with `last_active_at` set to `now`, pretty-printed.
pub open spec fn updated_meta_text(old_meta: Option<Seq<char>>, session_id: Seq<char>, now: Seq<char>) -> Option<
    Seq<char>,
> {
    let base = match old_meta {
        Some(t) => Some(t),
        None => set_field(set_field(Some("{}"@), "session_id"@, session_id), "created_at"@, now),
    };
    match set_field(base, "last_active_at"@, now) {
        Some(t) => json_pretty(t),
        None => None,
    }
}

/// The text of a snapshot's info file: an object of the session id, the
/// snapshot's name, its creation time and its turn count, pretty-printed.
pub open spec fn snapshot_info_text_spec(
    session_id: Seq<char>,
    snapshot_name: Seq<char>,
    created_at: Seq<char>,
    turn_count: u32,
) -> Option<Seq<char>> {
    let fields = set_number(
        set_field(
            set_field(set_field(Some("{}"@), "session_id"@, session_id), "snapshot_name"@, snapshot_name),
            "created_at"@,
            created_at,
        ),
        "turn_count"@,
        turn_count as u64,
    );
    match fields {
        Some(t) => json_pretty(t),
        None => None,
    }
}

/// Writes the text of a snapshot's info file.
pub fn snapshot_info_text(session_id: &str, snapshot_name: &str, created_at: &str, turn_count: u32) -> (r: Result<
    String,
    AgentError,
>)
    ensures
        match snapshot_info_text_spec(session_id@, snapshot_name@, created_at@, turn_count) {
            Some(t) => r matches Ok(s) && s@ == t,
            None => r matches Err(AgentError::Internal(m)) && m@ == "JSON document could not be built"@,
        },
{
    let t = set_text_field(Some("{}".to_string()), "session_id", session_id);
    let t = set_text_field(t, "snapshot_name", snapshot_name);
    let t = set_text_field(t, "created_at", created_at);
    let t = set_number_field(t, "turn_count", turn_count as u64);
    match pretty_text(t) {
        Some(text) => Ok(text),
        None => Err(AgentError::Internal("JSON document could not be built".to_string())),
    }
}

/// The text of a session's metadata file after the session is used at
/// `now_rfc3339`, from the old text (`None` when there is no file yet).
/// Old metadata that is not JSON fails with the parser's message; one that
/// is JSON but no object fails too.
pub fn updated_session_meta(old_meta: Option<&str>, session_id: &str, now_rfc3339: &str) -> (r: Result<
    String,
    AgentError,
>)
    ensures
        unreadable_metadata(opt_text(old_meta)) ==> (r matches Err(AgentError::Internal(m)) && json_error(
            opt_text(old_meta)->0,
        ) == Some(m@)),
        !unreadable_metadata(opt_text(old_meta)) ==> match updated_meta_text(
            opt_text(old_meta),
            session_id@,
            now_rfc3339@,
        ) {
            Some(text) => r matches Ok(s) && s@ == text,
            None => r matches Err(AgentError::Internal(m)) && m@ == "session metadata is not a JSON object"@,
        },
{
    match old_meta {
        Some(t) => {
            match json_parse_error(t) {
                Some(m) => {
                    return Err(AgentError::Internal(m));
                },
                None => {},
            }
        },
        None => {},
    }
    let base: Option<String> = match old_meta {
        Some(t) => Some(t.to_string()),
        None => match set_string_field("{}", "session_id", session_id) {
            Some(a) => set_string_field(a.as_str(), "created_at", now_rfc3339),
            None => None,
        },
    };
    let updated: Option<String> = match base {
        Some(b) => match set_string_field(b.as_str(), "last_active_at", now_rfc3339) {
            Some(t) => pretty_json(t.as_str()),
            None => None,
        },
        None => None,
    };
    match updated {
        Some(text) => Ok(text),
        None => Err(AgentError::Internal("session metadata is not a JSON object".to_string())),
    }
}

// ── Laws ──

/// Reading a turn log's name back gives the turn it was written for.
pub proof fn law_turn_file_name_round_trip(turn: nat)
    requires
        turn <= u32::MAX,
    ensures
        turn_number_of(turn_file_name_spec(turn)) == Some(turn as u32),
{
    reveal_strlit("turn_");
    reveal_strlit(".jsonl");
    let p = TURN_PREFIX@;
    let x = TURN_SUFFIX@;
    let dec = decimal(turn);
    let d = decimal_padded(turn, 3);
    lemma_decimal_digits(turn);
    if dec.len() < 3 {
        lemma_zero_padding((3 - dec.len()) as nat, dec);
    }
    assert(all_digits(d) && digits_value(d) == turn && d.len() >= 1);
    let name = turn_file_name_spec(turn);
    assert(name =~= p + d + x);
    assert(name.take(p.len() as int) =~= p);
    let rest = name.skip(p.len() as int);
    assert(rest =~= d + x);
    assert(rest.skip(rest.len() - x.len()) =~= x);
    assert(rest.take(rest.len() - x.len()) =~= d);
    assert(is_digit(d[0]));
    assert(unsigned_digits(d) == d);
}

/// A snapshot name that holds a path separator or `..` is always rejected.
pub proof fn law_path_like_snapshot_names_are_rejected(name: Seq<char>)
    requires
        has_path_parts(name),
    ensures
        snapshot_name_error(name) is Some,
{
}

proof fn lemma_identifier_is_ascii(id: Seq<char>)
    requires
        is_identifier(id),
    ensures
        forall|i: int| 0 <= i < id.len() ==> (#[trigger] id[i] as u32) < 128,
{
    assert forall|i: int| 0 <= i < id.len() implies (#[trigger] id[i] as u32) < 128 by {
        assert(is_identifier_char(id[i]));
    }
}

/// Every id of 1 to 128 ASCII letters, digits, hyphens and underscores is accepted.
pub proof fn law_identifier_session_ids_are_accepted(id: Seq<char>)
    requires
        is_identifier(id),
        id.len() <= MAX_SESSION_ID_LEN,
    ensures
        session_id_error(id) is None,
{
    lemma_identifier_is_ascii(id);
    lemma_ascii_byte_len(id);
}

/// A generated session id (an 8-digit date, `_`, and the first 8 characters
/// of a hyphenated UUID) passes validation.
pub proof fn law_generated_session_ids_are_valid(date: Seq<char>, uuid: Seq<char>)
    requires
        date.len() == 8,
        forall|i: int| 0 <= i < 8 ==> is_digit(#[trigger] date[i]),
        is_hyphenated_uuid(uuid),
    ensures
        session_id_error(session_id_of(date, uuid)) is None,
{
    reveal_strlit("_");
    let id = session_id_of(date, uuid);
    assert(id =~= date + seq!['_'] + uuid.take(8));
    assert(id.len() == 17);
    assert forall|i: int| 0 <= i < id.len() implies is_identifier_char(#[trigger] id[i]) by {
        if i < 8 {
            assert(id[i] == date[i]);
        } else if i == 8 {
            assert(id[i] == '_');
        } else {
            assert(id[i] == uuid[i - 9]);
            assert(i - 9 < 8);
            assert(is_lower_hex(uuid[i - 9]));
        }
    }
    law_identifier_session_ids_are_accepted(id);
}

proof fn lemma_insert_position_bounds(sorted: Seq<SnapshotInfo>, created_at: Seq<char>)
    ensures
        insert_position(sorted, created_at) <= sorted.len(),
        forall|j: int|
            0 <= j < insert_position(sorted, created_at) ==> str_lt(created_at, #[trigger] sorted[j].created_at@),
        insert_position(sorted, created_at) < sorted.len() ==> !str_lt(
            created_at,
            sorted[insert_position(sorted, created_at) as int].created_at@,
        ),
    decreases sorted.len(),
{
    if sorted.len() > 0 && str_lt(created_at, sorted[0].created_at@) {
        lemma_insert_position_bounds(sorted.drop_first(), created_at);
        assert forall|j: int| 0 <= j < insert_position(sorted, created_at) implies str_lt(
            created_at,
            #[trigger] sorted[j].created_at@,
        ) by {
            if j > 0 {
                assert(sorted[j] == sorted.drop_first()[j - 1]);
            }
        }
    }
}

/// Not sorting before is transitive.
proof fn lemma_not_newer_chain(a: Seq<char>, b: Seq<char>, c: Seq<char>)
    requires
        !str_lt(a, b),
        !str_lt(b, c),
    ensures
        !str_lt(a, c),
{
    if str_lt(a, c) {
        if a == b {
            if b == c {
                lemma_str_lt_irreflexive(a);
            } else {
                lemma_str_lt_total(b, c);
            }
        } else {
            lemma_str_lt_total(a, b);
            if b == c {
            } else {
                lemma_str_lt_total(b, c);
                lemma_str_lt_transitive(c, b, a);
                lemma_str_lt_transitive(a, c, a);
                lemma_str_lt_irreflexive(a);
            }
        }
    }
}

/// Snapshots are listed newest first: no snapshot in the listing was created
/// after one listed before it.
pub proof fn law_snapshot_listing_is_newest_first(snapshots: Seq<SnapshotInfo>, i: int, j: int)
    requires
        0 <= i < j < snapshots.len(),
    ensures
        !str_lt(newest_first(snapshots)[i].created_at@, newest_first(snapshots)[j].created_at@),
{
    lemma_newest_first_sorted(snapshots);
}

proof fn lemma_newest_first_sorted(snapshots: Seq<SnapshotInfo>)
    ensures
        newest_first(snapshots).len() == snapshots.len(),
        forall|i: int, j: int|
            0 <= i < j < snapshots.len() ==> !str_lt(
                (#[trigger] newest_first(snapshots)[i]).created_at@,
                (#[trigger] newest_first(snapshots)[j]).created_at@,
            ),
    decreases snapshots.len(),
{
    if snapshots.len() > 0 {
        let x = snapshots[0];
        lemma_newest_first_sorted(snapshots.drop_first());
        let rest = newest_first(snapshots.drop_first());
        lemma_insert_position_bounds(rest, x.created_at@);
        let p = insert_position(rest, x.created_at@) as int;
        let r = rest.take(p) + seq![x] + rest.skip(p);
        assert(r.len() == snapshots.len());
        assert forall|i: int, j: int| 0 <= i < j < r.len() implies !str_lt(
            (#[trigger] r[i]).created_at@,
            (#[trigger] r[j]).created_at@,
        ) by {
            if j < p {
                assert(r[i] == rest[i] && r[j] == rest[j]);
            } else if j == p {
                assert(r[i] == rest[i] && r[j] == x);
                assert(str_lt(x.created_at@, rest[i].created_at@));
                if str_lt(rest[i].created_at@, x.created_at@) {
                    lemma_str_lt_transitive(x.created_at@, rest[i].created_at@, x.created_at@);
                    lemma_str_lt_irreflexive(x.created_at@);
                }
            } else if i == p {
                assert(r[i] == x && r[j] == rest[j - 1]);
                assert(!str_lt(x.created_at@, rest[p].created_at@));
                if j - 1 > p {
                    assert(!str_lt(rest[p].created_at@, rest[j - 1].created_at@));
                    lemma_not_newer_chain(x.created_at@, rest[p].created_at@, rest[j - 1].created_at@);
                }
            } else if i < p {
                assert(r[i] == rest[i] && r[j] == rest[j - 1]);
            } else {
                assert(r[i] == rest[i - 1] && r[j] == rest[j - 1]);
            }
        }
    }
}

/// The listing holds exactly the snapshots it was given.
pub proof fn law_snapshot_listing_is_a_permutation(snapshots: Seq<SnapshotInfo>)
    ensures
        newest_first(snapshots).to_multiset() == snapshots.to_multiset(),
    decreases snapshots.len(),
{
    broadcast use vstd::multiset::group_multiset_axioms;
    broadcast use vstd::seq_lib::lemma_multiset_commutative;

    if snapshots.len() > 0 {
        let rest = newest_first(snapshots.drop_first());
        law_snapshot_listing_is_a_permutation(snapshots.drop_first());
        lemma_insert_position_bounds(rest, snapshots[0].created_at@);
        let p = insert_position(rest, snapshots[0].created_at@) as int;
        let a = rest.take(p);
        let b = rest.skip(p);
        let one = seq![snapshots[0]];
        assert(rest =~= a + b);
        assert(snapshots =~= one + snapshots.drop_first());
        assert(a + one + b =~= a + (one + b));
        assert((a + (one + b)).to_multiset() =~= a.to_multiset().add(one.to_multiset().add(b.to_multiset())));
        assert((a + b).to_multiset() =~= a.to_multiset().add(b.to_multiset()));
        assert((one + snapshots.drop_first()).to_multiset() =~= one.to_multiset().add(
            snapshots.drop_first().to_multiset(),
        ));
    }
}

} // verus!
