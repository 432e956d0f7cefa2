//! Redis commands and the pipelines that carry them.

use vstd::prelude::*;
use vstd::utf8::encode_utf8;
use redis::{Cmd, Pipeline};
use crate::text::decimal;

verus! {

/// A list of Redis commands that is sent in one go.
#[verifier::external_type_specification]
#[verifier::external_body]
pub struct ExPipeline(redis::Pipeline);

/// One Redis command.
#[verifier::external_type_specification]
#[verifier::external_body]
pub struct ExCmd(redis::Cmd);

/// The commands in a pipeline, in order, each as its arguments with the command's name first.
pub uninterp spec fn pipeline_commands(pipe: Pipeline) -> Seq<Seq<Seq<u8>>>;

/// Whether a pipeline is sent as one transaction (`MULTI`/`EXEC`).
pub uninterp spec fn pipeline_atomic(pipe: Pipeline) -> bool;

/// The arguments of a command, its name first.
pub uninterp spec fn cmd_args(command: Cmd) -> Seq<Seq<u8>>;

/// A write that the database asks of Redis.
pub enum RedisOp {
    /// Sets the string at `key`.
    SetValue { key: Seq<char>, value: Seq<u8> },
    /// Adds `member` to the set at `key`.
    Sadd { key: Seq<char>, member: Seq<u8> },
    /// Sets `field` of the hash at `key`.
    Hset { key: Seq<char>, field: Seq<u8>, value: Seq<u8> },
    /// Appends `value` to the list at `key`.
    Rpush { key: Seq<char>, value: Seq<u8> },
    /// Appends `value` to the list at `key` if there is one.
    Rpushx { key: Seq<char>, value: Seq<u8> },
    /// Removes `member` from the set at `key`.
    Srem { key: Seq<char>, member: Seq<u8> },
    /// Removes `field` from the hash at `key`.
    Hdel { key: Seq<char>, field: Seq<u8> },
    /// Removes what stands at `key`.
    Del { key: Seq<char> },
}

impl RedisOp {
    /// The arguments of the Redis command, its name first.
    pub open spec fn args(self) -> Seq<Seq<u8>> {
        match self {
            RedisOp::SetValue { key, value } => seq![encode_utf8("SET"@), encode_utf8(key), value],
            RedisOp::Sadd { key, member } => seq![encode_utf8("SADD"@), encode_utf8(key), member],
            RedisOp::Hset { key, field, value } =>
                seq![encode_utf8("HSET"@), encode_utf8(key), field, value],
            RedisOp::Rpush { key, value } => seq![encode_utf8("RPUSH"@), encode_utf8(key), value],
            RedisOp::Rpushx { key, value } => seq![encode_utf8("RPUSHX"@), encode_utf8(key), value],
            RedisOp::Srem { key, member } => seq![encode_utf8("SREM"@), encode_utf8(key), member],
            RedisOp::Hdel { key, field } => seq![encode_utf8("HDEL"@), encode_utf8(key), field],
            RedisOp::Del { key } => seq![encode_utf8("DEL"@), encode_utf8(key)],
        }
    }
}

/// The arguments of several writes, in their order.
pub open spec fn ops_args(ops: Seq<RedisOp>) -> Seq<Seq<Seq<u8>>> {
    ops.map_values(|op: RedisOp| op.args())
}

/// Whether `after` is `before` with the command for `op` added at the end.
pub open spec fn appended(before: Pipeline, after: Pipeline, op: RedisOp) -> bool {
    &&& pipeline_commands(after) == pipeline_commands(before).push(op.args())
    &&& pipeline_atomic(after) == pipeline_atomic(before)
}

/// Whether two pipelines hold the same commands and are sent alike.
pub open spec fn same_pipeline(a: Pipeline, b: Pipeline) -> bool {
    &&& pipeline_commands(a) == pipeline_commands(b)
    &&& pipeline_atomic(a) == pipeline_atomic(b)
}

/// The decimal text of an integer, with a leading minus sign where it is negative.
pub open spec fn signed_decimal(n: int) -> Seq<char> {
    if n < 0 {
        seq!['-'] + decimal((-n) as nat)
    } else {
        decimal(n as nat)
    }
}

/// `redis::pipe`: an empty pipeline that is not a transaction.
#[verifier::external_body]
pub(crate) fn new_pipeline() -> (pipe: Pipeline)
    ensures
        pipeline_commands(pipe) == Seq::<Seq<Seq<u8>>>::empty(),
        !pipeline_atomic(pipe),
{
    redis::pipe()
}

/// `Pipeline::atomic`: the pipeline becomes a transaction and keeps its commands.
#[verifier::external_body]
pub(crate) fn set_atomic(pipe: &mut Pipeline)
    ensures
        pipeline_commands(*final(pipe)) == pipeline_commands(*old(pipe)),
        pipeline_atomic(*final(pipe)),
{
    pipe.atomic();
}

/// `Pipeline::set`: adds `SET key value`.
#[verifier::external_body]
pub(crate) fn insert_string(pipe: &mut Pipeline, key: &str, value: &[u8])
    ensures
        appended(*old(pipe), *final(pipe), (RedisOp::SetValue { key: key@, value: value@ })),
{
    pipe.set(key, value);
}

/// `Pipeline::sadd`: adds `SADD key value`.
#[verifier::external_body]
pub(crate) fn insert_set(pipe: &mut Pipeline, key: &str, value: &[u8])
    ensures
        appended(*old(pipe), *final(pipe), (RedisOp::Sadd { key: key@, member: value@ })),
{
    pipe.sadd(key, value);
}

/// `Pipeline::hset`: adds `HSET key name value`.
#[verifier::external_body]
pub(crate) fn insert_hset(pipe: &mut Pipeline, key: &str, name: &[u8], value: &[u8])
    ensures
        appended(
            *old(pipe),
            *final(pipe),
            (RedisOp::Hset { key: key@, field: name@, value: value@ }),
        ),
{
    pipe.hset(key, name, value);
}

/// `Pipeline::rpush`: adds `RPUSH key value`.
#[verifier::external_body]
pub(crate) fn insert_list(pipe: &mut Pipeline, key: &str, value: &[u8])
    ensures
        appended(*old(pipe), *final(pipe), (RedisOp::Rpush { key: key@, value: value@ })),
{
    pipe.rpush(key, value);
}

/// `Pipeline::rpush_exists`: adds `RPUSHX key value`.
#[verifier::external_body]
pub(crate) fn update_list(pipe: &mut Pipeline, key: &str, value: &[u8])
    ensures
        appended(*old(pipe), *final(pipe), (RedisOp::Rpushx { key: key@, value: value@ })),
{
    pipe.rpush_exists(key, value);
}

/// `Pipeline::srem`: adds `SREM key member`.
#[verifier::external_body]
pub(crate) fn remove_from_set(pipe: &mut Pipeline, key: &str, member: &[u8])
    ensures
        appended(*old(pipe), *final(pipe), (RedisOp::Srem { key: key@, member: member@ })),
{
    pipe.srem(key, member);
}

/// `Pipeline::hdel`: adds `HDEL key field`.
#[verifier::external_body]
pub(crate) fn remove_from_hash(pipe: &mut Pipeline, key: &str, field: &[u8])
    ensures
        appended(*old(pipe), *final(pipe), (RedisOp::Hdel { key: key@, field: field@ })),
{
    pipe.hdel(key, field);
}

/// `Pipeline::del`: adds `DEL key`.
#[verifier::external_body]
pub(crate) fn delete_string(pipe: &mut Pipeline, key: &str)
    ensures
        appended(*old(pipe), *final(pipe), (RedisOp::Del { key: key@ })),
{
    pipe.del(key);
}

/// `redis::cmd`: a command of the given name without further arguments.
#[verifier::external_body]
pub(crate) fn new_cmd(name: &str) -> (command: Cmd)
    ensures
        cmd_args(command) == seq![encode_utf8(name@)],
{
    redis::cmd(name)
}

/// `Cmd::arg` on a string: adds the UTF-8 encoding of the string as an argument.
#[verifier::external_body]
pub(crate) fn cmd_arg_str(command: &mut Cmd, arg: &str)
    ensures
        cmd_args(*final(command)) == cmd_args(*old(command)).push(encode_utf8(arg@)),
{
    command.arg(arg);
}

/// `Cmd::arg` on a signed integer: adds its decimal text as an argument.
#[verifier::external_body]
pub(crate) fn cmd_arg_int(command: &mut Cmd, arg: i64)
    ensures
        cmd_args(*final(command)) == cmd_args(*old(command)).push(
            encode_utf8(signed_decimal(arg as int)),
        ),
{
    command.arg(arg);
}

} // verus!
