//! The layout of what the bot keeps in its database, and what it makes of
//! the database's answers.
use vstd::prelude::*;
use crate::chat_config::ChatConfig;
use crate::config::Config;
use crate::user_status::{UserStatus, status_code, status_of_code};
use vstd::utf8::encode_utf8;

verus! {

/// A database operation failed, or no database is reachable.
#[derive(Clone, Copy, Debug, PartialEq, Eq, Structural)]
pub enum DbError {
    Error,
}

/// Anything that has a Telegram id under which data is kept.
pub trait HasID {
    /// The id, as a value.
    spec fn id_of(&self) -> i64;

    /// The id.
    fn get_id(&self) -> (id: i64)
        ensures
            id == self.id_of(),
    ;
}

/// A Telegram user, reduced to its id.
#[derive(Clone, Copy, Debug, PartialEq, Eq, Structural)]
pub struct User {
    pub id: u64,
}

/// A Telegram chat, reduced to its id.
#[derive(Clone, Copy, Debug, PartialEq, Eq, Structural)]
pub struct Chat {
    pub id: i64,
}

impl HasID for User {
    /// A user id is reinterpreted as a signed integer: ids past `i64::MAX`
    /// wrap around to negative ones.
    open spec fn id_of(&self) -> i64 {
        self.id as i64
    }

    fn get_id(&self) -> (id: i64) {
        self.id as i64
    }
}

impl HasID for Chat {
    open spec fn id_of(&self) -> i64 {
        self.id
    }

    fn get_id(&self) -> (id: i64) {
        self.id
    }
}

/// What reinterpreting a user id as signed gives, as arithmetic.
pub proof fn lemma_user_id_wraps(u: User)
    ensures
        u.id <= i64::MAX ==> u.id_of() == u.id,
        u.id > i64::MAX ==> u.id_of() == u.id - 0x1_0000_0000_0000_0000,
{
    let x = u.id;
    assert(x <= 0x7fff_ffff_ffff_ffff ==> (x as i64) as int == x as int) by (bit_vector);
    assert(x > 0x7fff_ffff_ffff_ffff ==> (x as i64) as int == x as int - 0x1_0000_0000_0000_0000)
        by (bit_vector);
}

/// The character of a decimal digit.
pub open spec fn digit_char(d: nat) -> char {
    seq!['0', '1', '2', '3', '4', '5', '6', '7', '8', '9'][d as int]
}

/// The decimal digits of a natural number, without leading zeros.
pub open spec fn digits(n: nat) -> Seq<char>
    decreases n,
{
    if n < 10 {
        seq![digit_char(n)]
    } else {
        digits(n / 10) + seq![digit_char(n % 10)]
    }
}

/// An integer written in decimal, with a leading `-` when it is negative.
pub open spec fn decimal(n: int) -> Seq<char> {
    if n < 0 {
        seq!['-'] + digits((-n) as nat)
    } else {
        digits(n as nat)
    }
}

fn digit_str(d: u64) -> (s: &'static str)
    requires
        d < 10,
    ensures
        s@ == seq![digit_char(d as nat)],
{
    proof {
        reveal_strlit("0");
        reveal_strlit("1");
        reveal_strlit("2");
        reveal_strlit("3");
        reveal_strlit("4");
        reveal_strlit("5");
        reveal_strlit("6");
        reveal_strlit("7");
        reveal_strlit("8");
        reveal_strlit("9");
    }
    if d == 0 {
        "0"
    } else if d == 1 {
        "1"
    } else if d == 2 {
        "2"
    } else if d == 3 {
        "3"
    } else if d == 4 {
        "4"
    } else if d == 5 {
        "5"
    } else if d == 6 {
        "6"
    } else if d == 7 {
        "7"
    } else if d == 8 {
        "8"
    } else {
        "9"
    }
}

fn digits_string(m: u64) -> (s: String)
    ensures
        s@ == digits(m as nat),
    decreases m,
{
    if m < 10 {
        String::from_str(digit_str(m))
    } else {
        let mut s = digits_string(m / 10);
        s.append(digit_str(m % 10));
        s
    }
}

/// Writes an integer in decimal.
pub fn decimal_string(n: i64) -> (s: String)
    ensures
        s@ == decimal(n as int),
{
    if n < 0 {
        let magnitude: u64 = ((-(n + 1)) as u64) + 1;
        let mut s = String::from_str("-");
        proof {
            reveal_strlit("-");
        }
        let d = digits_string(magnitude);
        s.append(d.as_str());
        s
    } else {
        digits_string(n as u64)
    }
}

/// The number a digit character stands for.
pub open spec fn digit_value(c: char) -> int {
    c as int - '0' as int
}

/// The number a string of decimal digits stands for.
pub open spec fn value_of_digits(s: Seq<char>) -> int
    decreases s.len(),
{
    if s.len() == 0 {
        0
    } else {
        value_of_digits(s.drop_last()) * 10 + digit_value(s.last())
    }
}

proof fn lemma_digits_value(n: nat)
    ensures
        value_of_digits(digits(n)) == n,
        digits(n).len() > 0,
        forall|i: int| 0 <= i < digits(n).len() ==> '0' <= #[trigger] digits(n)[i] <= '9',
    decreases n,
{
    if n < 10 {
        assert(digits(n).drop_last() =~= Seq::<char>::empty());
        assert(value_of_digits(Seq::<char>::empty()) == 0);
    } else {
        lemma_digits_value(n / 10);
        let s = digits(n);
        assert(s.drop_last() =~= digits(n / 10));
        assert(digit_value(s.last()) == n % 10);
        assert((n / 10) * 10 + n % 10 == n) by (nonlinear_arith);
    }
}

/// Different integers are written differently.
pub proof fn lemma_decimal_injective(a: int, b: int)
    requires
        decimal(a) == decimal(b),
    ensures
        a == b,
{
    lemma_digits_value(if a < 0 { (-a) as nat } else { a as nat });
    lemma_digits_value(if b < 0 { (-b) as nat } else { b as nat });
    if a < 0 && b < 0 {
        assert(decimal(a).drop_first() =~= digits((-a) as nat));
        assert(decimal(b).drop_first() =~= digits((-b) as nat));
    } else if a < 0 {
        assert(decimal(a)[0] == '-');
        assert(decimal(b)[0] == digits(b as nat)[0]);
    } else if b < 0 {
        assert(decimal(b)[0] == '-');
        assert(decimal(a)[0] == digits(a as nat)[0]);
    }
}

/// The key under which the pending request of `id` is kept.
pub open spec fn status_key_of(id: i64) -> Seq<char> {
    decimal(id as int) + ":status"@
}

/// The key under which the preferences of `id` are kept.
pub open spec fn config_key_of(id: i64) -> Seq<char> {
    decimal(id as int) + ":config"@
}

/// The key of the pending request of a user or chat: its id in decimal,
/// then `:status`.
pub fn status_key<T: HasID>(ent: &T) -> (key: String)
    ensures
        key@ == status_key_of(ent.id_of()),
        key@ == decimal(ent.id_of() as int) + ":status"@,
{
    let mut key = decimal_string(ent.get_id());
    key.append(":status");
    key
}

/// The key of the preferences of a user or chat: its id in decimal, then
/// `:config`.
pub fn config_key<T: HasID>(ent: &T) -> (key: String)
    ensures
        key@ == config_key_of(ent.id_of()),
        key@ == decimal(ent.id_of() as int) + ":config"@,
{
    let mut key = decimal_string(ent.get_id());
    key.append(":config");
    key
}

/// The layout of the keys of an id, for every id: the id in decimal (its
/// digits read back give the id, after a `-` when it is negative), then
/// exactly `:status` or `:config`, the same suffix whatever the id.
pub proof fn lemma_key_layout(id: i64)
    ensures
        status_key_of(id) == decimal(id as int) + ":status"@,
        config_key_of(id) == decimal(id as int) + ":config"@,
        status_key_of(id).skip(decimal(id as int).len() as int) == ":status"@,
        config_key_of(id).skip(decimal(id as int).len() as int) == ":config"@,
        id >= 0 ==> value_of_digits(decimal(id as int)) == id,
        id < 0 ==> decimal(id as int)[0] == '-' && value_of_digits(decimal(id as int).drop_first())
            == -id,
{
    assert(status_key_of(id).skip(decimal(id as int).len() as int) =~= ":status"@);
    assert(config_key_of(id).skip(decimal(id as int).len() as int) =~= ":config"@);
    if id >= 0 {
        lemma_digits_value(id as nat);
    } else {
        lemma_digits_value((-id) as nat);
        assert(decimal(id as int).drop_first() =~= digits((-id) as nat));
    }
}

/// Keys never collide: two ids share a status key, or a preferences key,
/// only when they are the same id, and no status key is a preferences key.
pub proof fn lemma_keys_distinct(a: i64, b: i64)
    ensures
        status_key_of(a) == status_key_of(b) ==> a == b,
        config_key_of(a) == config_key_of(b) ==> a == b,
        status_key_of(a) != config_key_of(b),
{
    reveal_strlit(":status");
    reveal_strlit(":config");
    let da = decimal(a as int);
    let db = decimal(b as int);
    if status_key_of(a) == status_key_of(b) {
        assert(status_key_of(a).subrange(0, da.len() as int) =~= da);
        assert(status_key_of(b).subrange(0, db.len() as int) =~= db);
        lemma_decimal_injective(a as int, b as int);
    }
    if config_key_of(a) == config_key_of(b) {
        assert(":config"@.len() == 7);
        assert(config_key_of(a).len() == da.len() + 7);
        assert(config_key_of(b).len() == db.len() + 7);
        assert(da.len() == db.len());
        assert(config_key_of(a).subrange(0, da.len() as int) =~= da);
        assert(config_key_of(b).subrange(0, db.len() as int) =~= db);
        lemma_decimal_injective(a as int, b as int);
    }
    let sa = status_key_of(a);
    let cb = config_key_of(b);
    assert(sa[sa.len() - 1] == 's');
    assert(cb[cb.len() - 1] == 'g');
}

/// How long, in seconds, a pending request is kept.
pub const STATUS_TTL_SECS: i64 = 60;

#[verifier::external_type_specification]
#[verifier::external_body]
pub struct ExRedisPipeline(redis::Pipeline);

/// The commands queued in a Redis pipeline, in order: each as its words in
/// bytes (the command's name first), with whether its reply is ignored.
pub uninterp spec fn pipeline_commands(p: redis::Pipeline) -> Seq<(Seq<Seq<u8>>, bool)>;

/// A queued command: its words as UTF-8 bytes, and whether its reply is
/// ignored.
pub open spec fn command(words: Seq<Seq<char>>, ignored: bool) -> (Seq<Seq<u8>>, bool) {
    (words.map_values(|w: Seq<char>| encode_utf8(w)), ignored)
}

/// Calls `redis::pipe`.  Trusted: the new pipeline holds no command.
#[verifier::external_body]
fn pipe_new() -> (p: redis::Pipeline)
    ensures
        pipeline_commands(p) == Seq::<(Seq<Seq<u8>>, bool)>::empty(),
{
    redis::pipe()
}

/// Calls `redis::Pipeline::set` with a string key and a string value.
/// Trusted: it queues `SET key value`, each word as the bytes of its string,
/// with its reply kept.
#[verifier::external_body]
fn pipe_set(p: &mut redis::Pipeline, key: &str, value: &str)
    ensures
        pipeline_commands(*final(p)) == pipeline_commands(*old(p)).push(
            command(seq!["SET"@, key@, value@], false),
        ),
{
    p.set(key, value);
}

/// Calls `redis::Pipeline::expire` with a string key.  Trusted: it queues
/// `EXPIRE key seconds`, the seconds written in decimal, with its reply kept.
#[verifier::external_body]
fn pipe_expire(p: &mut redis::Pipeline, key: &str, seconds: i64)
    ensures
        pipeline_commands(*final(p)) == pipeline_commands(*old(p)).push(
            command(seq!["EXPIRE"@, key@, decimal(seconds as int)], false),
        ),
{
    p.expire(key, seconds);
}

/// Calls `redis::Pipeline::ignore`.  Trusted: the reply of the last queued
/// command is ignored; an empty pipeline is left as it is.
#[verifier::external_body]
fn pipe_ignore(p: &mut redis::Pipeline)
    ensures
        pipeline_commands(*old(p)).len() == 0 ==> pipeline_commands(*final(p)) == pipeline_commands(*old(p)),
        pipeline_commands(*old(p)).len() > 0 ==> pipeline_commands(*final(p))
            == pipeline_commands(*old(p)).update(
            pipeline_commands(*old(p)).len() - 1,
            (pipeline_commands(*old(p)).last().0, true),
        ),
{
    p.ignore();
}

/// The pipeline that stores `status` for a user or chat: `SET` of the
/// status's integer under the status key, then `EXPIRE` of that key after a
/// minute, both replies ignored.
pub fn status_pipeline<T: HasID>(ent: &T, status: UserStatus) -> (p: redis::Pipeline)
    ensures
        pipeline_commands(p) == seq![
            command(seq!["SET"@, status_key_of(ent.id_of()), decimal(status_code(status) as int)], true),
            command(seq!["EXPIRE"@, status_key_of(ent.id_of()), decimal(60)], true),
        ],
{
    let key = status_key(ent);
    let code = decimal_string(status.code() as i64);
    let mut p = pipe_new();
    pipe_set(&mut p, key.as_str(), code.as_str());
    pipe_ignore(&mut p);
    pipe_expire(&mut p, key.as_str(), STATUS_TTL_SECS);
    pipe_ignore(&mut p);
    assert(pipeline_commands(p) =~= seq![
        command(seq!["SET"@, status_key_of(ent.id_of()), decimal(status_code(status) as int)], true),
        command(seq!["EXPIRE"@, status_key_of(ent.id_of()), decimal(60)], true),
    ]);
    p
}

/// The pipeline that stores serialized preferences for a user or chat:
/// `SET` of the text under the preferences key, reply ignored, no expiry.
pub fn config_pipeline<T: HasID>(ent: &T, serialized: &str) -> (p: redis::Pipeline)
    ensures
        pipeline_commands(p) == seq![
            command(seq!["SET"@, config_key_of(ent.id_of()), serialized@], true),
        ],
{
    let key = config_key(ent);
    let mut p = pipe_new();
    pipe_set(&mut p, key.as_str(), serialized);
    pipe_ignore(&mut p);
    assert(pipeline_commands(p) =~= seq![
        command(seq!["SET"@, config_key_of(ent.id_of()), serialized@], true),
    ]);
    p
}

/// How a database operation came back.
pub enum DbReply<T> {
    /// No database is configured, or it could not be reached.
    NoConnection,
    /// The database answered with an error.
    Failed,
    /// The database answered with a value.
    Value(T),
}

/// The outcome of a write: it succeeded only if the database took it.
pub fn write_result(reply: DbReply<()>) -> (r: Result<(), DbError>)
    ensures
        r is Ok <==> reply is Value,
{
    match reply {
        DbReply::Value(()) => Ok(()),
        _ => Err(DbError::Error),
    }
}

/// The pending request read back for a user or chat: without a database
/// this fails; an answer that is not an integer (a missing key among them)
/// counts as `0`, which means that nothing is pending.
pub fn status_result(reply: DbReply<i32>) -> (r: Result<UserStatus, DbError>)
    ensures
        r == (match reply {
            DbReply::NoConnection => Err(DbError::Error),
            DbReply::Failed => Ok(status_of_code(0)),
            DbReply::Value(c) => Ok(status_of_code(c as int)),
        }),
{
    match reply {
        DbReply::NoConnection => Err(DbError::Error),
        DbReply::Failed => Ok(UserStatus::from_code(0)),
        DbReply::Value(c) => Ok(UserStatus::from_code(c)),
    }
}

/// The text stored for preferences that have never been set.  It is not
/// valid JSON, so reading it always falls back to the default preferences.
pub open spec fn unset_config_text() -> Seq<char> {
    "{'delete_on_send': false}"@
}

/// The serialized preferences to decode for a user or chat: without a
/// database, or when the database fails, this fails; a missing key gives
/// the text for unset preferences.
pub fn config_text(reply: DbReply<Option<String>>) -> (r: Result<String, DbError>)
    ensures
        match reply {
            DbReply::Value(Some(s)) => r matches Ok(t) && t@ == s@,
            DbReply::Value(None) => r matches Ok(t) && t@ == unset_config_text(),
            _ => r == Err::<String, DbError>(DbError::Error),
        },
{
    match reply {
        DbReply::Value(Some(s)) => Ok(s),
        DbReply::Value(None) => Ok(String::from_str("{'delete_on_send': false}")),
        _ => Err(DbError::Error),
    }
}

/// The preferences in effect: the decoded ones, or, when the stored text
/// could not be decoded, the builder's default (requests are kept).
pub fn config_or_default(decoded: Option<ChatConfig>) -> (c: ChatConfig)
    ensures
        c == (match decoded {
            Some(d) => d,
            None => ChatConfig { delete_on_send: Some(false) },
        }),
{
    match decoded {
        Some(d) => d,
        None => ChatConfig::builder_default(),
    }
}

#[verifier::external_type_specification]
#[verifier::external_body]
pub struct ExRedisClient(redis::Client);

#[verifier::external_type_specification]
#[verifier::external_body]
pub struct ExRedisError(redis::RedisError);

/// Whether `redis::Client::open` accepts an address: it parses the address
/// as a URL and accepts the `redis`, `rediss`, `unix` and `redis+unix`
/// schemes, without contacting any server.
pub uninterp spec fn redis_url_accepted(url: Seq<char>) -> bool;

/// Calls `redis::Client::open` on an address.  Trusted: it succeeds exactly
/// when the address is accepted (`redis_url_accepted`); the client it
/// returns, and the error, are not described.
#[verifier::external_body]
fn client_open(url: &str) -> (r: Result<redis::Client, redis::RedisError>)
    ensures
        r is Ok <==> redis_url_accepted(url@),
{
    redis::Client::open(url)
}

/// The database client for the configured address: none when no address is
/// configured, else the outcome of opening a client on that address.  No
/// connection is made.
pub fn open_client(config: &Config) -> (r: Option<Result<redis::Client, redis::RedisError>>)
    ensures
        r is None <==> config.redis_address is None,
        r matches Some(res) ==> (res is Ok <==> redis_url_accepted(config.redis_address->0@)),
{
    match &config.redis_address {
        None => None,
        Some(address) => Some(client_open(address.as_str())),
    }
}

} // verus!
