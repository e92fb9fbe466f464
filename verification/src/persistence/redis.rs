//! The journal in a Redis store: each key is a sorted set whose members are
//! the encoded entries, scored by their sequence number.
use crate::actor::message::Message;
use vstd::prelude::*;
use vstd::utf8::encode_utf8;

verus! {

/// `redis::Cmd`: a command with its arguments. The library builds commands
/// and hands them on; nothing is known of a command but its arguments.
#[verifier::external_type_specification]
#[verifier::external_body]
pub struct ExCmd(redis::Cmd);

/// The arguments of a command, the name of the command first: what
/// `redis::Cmd::args_iter` yields.
pub uninterp spec fn command_args(cmd: redis::Cmd) -> Seq<Seq<u8>>;

/// The decimal digits of `n`.
pub open spec fn digits(n: nat) -> Seq<u8>
    decreases n,
{
    if n < 10 {
        seq![(48 + n) as u8]
    } else {
        digits(n / 10).push((48 + n % 10) as u8)
    }
}

/// The number `v` in decimal, with a minus sign where it is negative.
pub open spec fn decimal(v: int) -> Seq<u8> {
    if v < 0 {
        seq![45u8] + digits((-v) as nat)
    } else {
        digits(v as nat)
    }
}

/// Calls `redis::cmd`: a new command whose only argument so far is its
/// name, as the bytes of the text.
#[verifier::external_body]
fn command(name: &str) -> (cmd: redis::Cmd)
    ensures
        command_args(cmd) == seq![encode_utf8(name@)],
{
    redis::cmd(name)
}

/// Calls `redis::Cmd::arg` with a text, which appends one argument: the
/// bytes of the text.
#[verifier::external_body]
fn arg_text(cmd: &mut redis::Cmd, arg: &str)
    ensures
        command_args(*final(cmd)) == command_args(*old(cmd)).push(encode_utf8(arg@)),
{
    cmd.arg(arg);
}

/// Calls `redis::Cmd::arg` with an `i64`, which appends one argument: the
/// number in decimal.
#[verifier::external_body]
fn arg_int(cmd: &mut redis::Cmd, arg: i64)
    ensures
        command_args(*final(cmd)) == command_args(*old(cmd)).push(decimal(arg as int)),
{
    cmd.arg(arg);
}

/// Calls `redis::Cmd::arg` with a slice of bytes, which appends one
/// argument: those bytes.
#[verifier::external_body]
fn arg_bytes(cmd: &mut redis::Cmd, arg: &Vec<u8>)
    ensures
        command_args(*final(cmd)) == command_args(*old(cmd)).push(arg@),
{
    cmd.arg(arg.as_slice());
}

/// The bytes of a text.
pub open spec fn text(s: Seq<char>) -> Seq<u8> {
    encode_utf8(s)
}

/// The journal of actors in a Redis store, over the connection `C`.
pub struct RedisJournal<C>(pub C);

/// Asks the journal to add an entry under a key. `result_channel` is where
/// the outcome is awaited.
pub struct Write<S> {
    pub key: String,
    pub entry: crate::persistence::JournalEntry,
    pub result_channel: S,
}

impl<S> Message for Write<S> {
    type Result = ();
}

/// Asks the journal for the newest entry under a key.
pub struct ReadSnapshot<S>(pub String, pub S);

impl<S> Message for ReadSnapshot<S> {
    type Result = ();
}

/// Asks the journal for the entries under a key from a sequence number on.
pub struct ReadMessages<S> {
    pub key: String,
    pub from_sequence: i64,
    pub result_channel: S,
}

impl<S> Message for ReadMessages<S> {
    type Result = ();
}

/// Asks the journal to delete keys.
pub struct Delete(pub Vec<String>);

impl Message for Delete {
    /// Whether the keys were deleted, else what the store said.
    type Result = Result<(), String>;
}

/// The command that adds an encoded entry with the sequence number
/// `sequence` to the log under `key`.
pub fn write_command(key: &str, sequence: i64, encoded: &Vec<u8>) -> (cmd: redis::Cmd)
    ensures
        command_args(cmd) == seq![text("ZADD"@), text(key@), decimal(sequence as int), encoded@],
{
    let mut cmd = command("ZADD");
    arg_text(&mut cmd, key);
    arg_int(&mut cmd, sequence);
    arg_bytes(&mut cmd, encoded);
    cmd
}

/// The command that reads the entry with the highest sequence number
/// under `key`.
pub fn read_snapshot_command(key: &str) -> (cmd: redis::Cmd)
    ensures
        command_args(cmd) == seq![
            text("ZRANGE"@),
            text(key@),
            text("+inf"@),
            text("-inf"@),
            text("BYSCORE"@),
            text("REV"@),
            text("LIMIT"@),
            text("0"@),
            text("1"@),
        ],
{
    let mut cmd = command("ZRANGE");
    arg_text(&mut cmd, key);
    arg_text(&mut cmd, "+inf");
    arg_text(&mut cmd, "-inf");
    arg_text(&mut cmd, "BYSCORE");
    arg_text(&mut cmd, "REV");
    arg_text(&mut cmd, "LIMIT");
    arg_text(&mut cmd, "0");
    arg_text(&mut cmd, "1");
    cmd
}

/// The command that reads the entries under `key` whose sequence number is
/// at least `from_sequence`, in ascending order.
pub fn read_messages_command(key: &str, from_sequence: i64) -> (cmd: redis::Cmd)
    ensures
        command_args(cmd) == seq![
            text("ZRANGE"@),
            text(key@),
            decimal(from_sequence as int),
            text("+inf"@),
            text("BYSCORE"@),
        ],
{
    let mut cmd = command("ZRANGE");
    arg_text(&mut cmd, key);
    arg_int(&mut cmd, from_sequence);
    arg_text(&mut cmd, "+inf");
    arg_text(&mut cmd, "BYSCORE");
    cmd
}

impl<C> RedisJournal<C> {
    /// The command for a request to write: the encoded entry is added
    /// under the key, scored by the sequence number of the entry.
    pub fn handle_write<S>(&self, message: &Write<S>, encoded: &Vec<u8>) -> (cmd: redis::Cmd)
        ensures
            command_args(cmd) == seq![
                text("ZADD"@),
                text(message.key@),
                decimal(message.entry.sequence as int),
                encoded@,
            ],
    {
        write_command(message.key.as_str(), message.entry.sequence, encoded)
    }

    /// The command for a request to read the snapshot.
    pub fn handle_read_snapshot<S>(&self, message: &ReadSnapshot<S>) -> (cmd: redis::Cmd)
        ensures
            command_args(cmd) == seq![
                text("ZRANGE"@),
                text(message.0@),
                text("+inf"@),
                text("-inf"@),
                text("BYSCORE"@),
                text("REV"@),
                text("LIMIT"@),
                text("0"@),
                text("1"@),
            ],
    {
        read_snapshot_command(message.0.as_str())
    }

    /// The command for a request to read messages.
    pub fn handle_read_messages<S>(&self, message: &ReadMessages<S>) -> (cmd: redis::Cmd)
        ensures
            command_args(cmd) == seq![
                text("ZRANGE"@),
                text(message.key@),
                decimal(message.from_sequence as int),
                text("+inf"@),
                text("BYSCORE"@),
            ],
    {
        read_messages_command(message.key.as_str(), message.from_sequence)
    }

    /// The command for a request to delete keys.
    pub fn handle_delete(&self, message: &Delete) -> (cmd: redis::Cmd)
        ensures
            command_args(cmd) == seq![text("DEL"@)] + texts(message.0@),
    {
        delete_command(&message.0)
    }
}

/// The texts of `keys` as bytes, in order.
pub open spec fn texts(keys: Seq<String>) -> Seq<Seq<u8>> {
    keys.map_values(|k: String| encode_utf8(k@))
}

/// The command that deletes `keys`.
pub fn delete_command(keys: &Vec<String>) -> (cmd: redis::Cmd)
    ensures
        command_args(cmd) == seq![text("DEL"@)] + texts(keys@),
{
    let mut cmd = command("DEL");
    let mut i: usize = 0;
    proof {
        assert(texts(keys@.take(0)) =~= Seq::<Seq<u8>>::empty());
        assert(command_args(cmd) =~= seq![text("DEL"@)] + texts(keys@.take(0)));
    }
    while i < keys.len()
        invariant
            i <= keys.len(),
            command_args(cmd) == seq![text("DEL"@)] + texts(keys@.take(i as int)),
        decreases keys.len() - i,
    {
        arg_text(&mut cmd, keys[i].as_str());
        proof {
            assert(keys@.take(i as int + 1) == keys@.take(i as int).push(keys@[i as int]));
            assert(texts(keys@.take(i as int + 1)) =~= texts(keys@.take(i as int)).push(
                encode_utf8(keys@[i as int]@),
            ));
            assert(command_args(cmd) =~= seq![text("DEL"@)] + texts(keys@.take(i as int + 1)));
        }
        i += 1;
    }
    proof {
        assert(keys@.take(i as int) == keys@);
    }
    cmd
}

} // verus!
