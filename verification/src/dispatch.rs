//! The decisions around one sandboxed run.
//!
//! Running a sandbox is the caller's work. The caller asks `begin` what to
//! do with a request, runs the sandbox when told to, and hands what came of
//! it to `finish`, which annotates, caches and gives the result.

use vstd::prelude::*;
use vstd::string::StringSliceAdditionalSpecFns;
use vstd::utf8::encode_utf8;

use crate::cache::ExecutionCache;
use crate::model::{inserted, lookup, refreshed, well_formed};
use crate::request::{ExecutionRequest, ExecutionResult, ExitStatus, ResultValue};

verus! {

/// The wall-clock seconds a sandboxed run may take.
pub const TIMEOUT_SECONDS: u64 = 5;

/// The bytes appended to the output of a run that was stopped for taking too
/// long: a line feed and the words `timeout triggered!`.
pub open spec fn timeout_marker() -> Seq<u8> {
    "\ntimeout triggered!".spec_bytes()
}

/// What the sandbox runtime is asked for: a sandbox of `image` that runs
/// `command` with `arguments`, is fed `input` (the request's input as
/// UTF-8) and is stopped after `timeout_seconds`.
pub struct SandboxInvocation<'a> {
    pub image: String,
    pub command: &'a str,
    pub arguments: &'a Vec<String>,
    pub input: &'a [u8],
    pub timeout_seconds: u64,
}

impl<'a> SandboxInvocation<'a> {
    /// Whether this is the invocation that `request` calls for.
    pub open spec fn serves(&self, request: &ExecutionRequest) -> bool {
        &&& self.image@ == request.channel.image_name()
        &&& self.command@ == request.command@
        &&& self.arguments == request.arguments
        &&& self.input@ == encode_utf8(request.input@)
        &&& self.timeout_seconds == TIMEOUT_SECONDS
    }
}

/// What to do with a request.
pub enum Step<'a> {
    /// The cache held a result: it is the answer, and no sandbox runs.
    Cached(ExecutionResult),
    /// The cache held nothing: the sandbox has to run.
    Launch(SandboxInvocation<'a>),
}

/// What a sandboxed run gave: the exit status, the output captured until the
/// process ended or was stopped, and whether the timeout stopped it.
pub struct RunOutcome {
    pub status: ExitStatus,
    pub output: Vec<u8>,
    pub timed_out: bool,
}

/// The result of a run: its status as reported, and its output, followed by
/// the timeout marker if the run was stopped for taking too long.
pub open spec fn annotated(status: i32, output: Seq<u8>, timed_out: bool) -> ResultValue {
    (
        status,
        if timed_out {
            output + timeout_marker()
        } else {
            output
        },
    )
}

/// The marker, byte by byte.
pub proof fn lemma_timeout_marker()
    ensures
        timeout_marker() == seq![
            0x0au8, 0x74, 0x69, 0x6d, 0x65, 0x6f, 0x75, 0x74, 0x20, 0x74, 0x72, 0x69, 0x67, 0x67,
            0x65, 0x72, 0x65, 0x64, 0x21,
        ],
{
    reveal_strlit("\ntimeout triggered!");
    vstd::string::is_ascii_spec_bytes("\ntimeout triggered!");
    assert(timeout_marker() =~= seq![
        0x0au8, 0x74, 0x69, 0x6d, 0x65, 0x6f, 0x75, 0x74, 0x20, 0x74, 0x72, 0x69, 0x67, 0x67,
        0x65, 0x72, 0x65, 0x64, 0x21,
    ]);
}

/// A run that the timeout stopped keeps the status that was reported and
/// all that was captured, and its output ends in the marker. Any other run
/// is handed on unchanged.
pub proof fn lemma_timeout_annotation(status: i32, output: Seq<u8>)
    ensures
        annotated(status, output, false) == (status, output),
        annotated(status, output, true).0 == status,
        annotated(status, output, true).1.len() == output.len() + timeout_marker().len(),
        annotated(status, output, true).1.take(output.len() as int) == output,
        annotated(status, output, true).1.skip(output.len() as int) == timeout_marker(),
{
}

/// Turns the outcome of a run into its result.
pub fn annotate(outcome: RunOutcome) -> (result: ExecutionResult)
    ensures
        result@ == annotated(outcome.status.raw, outcome.output@, outcome.timed_out),
{
    let RunOutcome { status, mut output, timed_out } = outcome;
    if timed_out {
        output.extend_from_slice("\ntimeout triggered!".as_bytes());
    }
    ExecutionResult { status, output }
}

/// Decides what to do with `request`: answer it from the cache, where a
/// result is filed under it, or run the sandbox.
pub fn begin<'a>(cache: &mut ExecutionCache, request: &'a ExecutionRequest) -> (step: Step<'a>)
    ensures
        final(cache).limit() == old(cache).limit(),
        final(cache)@ == refreshed(old(cache)@, request@),
        well_formed(final(cache)@, final(cache).limit()),
        match step {
            Step::Cached(result) => lookup(old(cache)@, request@) == Some(result@),
            Step::Launch(invocation) => {
                &&& lookup(old(cache)@, request@) is None
                &&& invocation.serves(request)
            },
        },
{
    match cache.get(request) {
        Some(result) => Step::Cached(result),
        None => Step::Launch(
            SandboxInvocation {
                image: request.channel.image(),
                command: request.command.as_str(),
                arguments: &request.arguments,
                input: request.input.as_str().as_bytes(),
                timeout_seconds: TIMEOUT_SECONDS,
            },
        ),
    }
}

/// Takes what came of the sandbox for `request`. A run that took place gives
/// its annotated result, which is filed in the cache, whatever its exit
/// status and whether or not the timeout stopped it. A failure of the sandbox
/// is handed on as it is, and the cache stays as it was.
pub fn finish<E>(
    cache: &mut ExecutionCache,
    request: ExecutionRequest,
    event: Result<RunOutcome, E>,
) -> (answer: Result<ExecutionResult, E>)
    ensures
        final(cache).limit() == old(cache).limit(),
        well_formed(final(cache)@, final(cache).limit()),
        match event {
            Ok(outcome) => {
                &&& answer matches Ok(result)
                &&& result@ == annotated(outcome.status.raw, outcome.output@, outcome.timed_out)
                &&& final(cache)@ == inserted(
                    old(cache)@,
                    old(cache).limit(),
                    request@,
                    result@,
                )
            },
            Err(error) => {
                &&& answer == Err::<ExecutionResult, E>(error)
                &&& final(cache)@ == old(cache)@
            },
        },
{
    match event {
        Ok(outcome) => {
            let result = annotate(outcome);
            cache.insert(request, &result);
            Ok(result)
        },
        Err(error) => {
            proof {
                use_type_invariant(&*cache);
            }
            Err(error)
        },
    }
}

} // verus!
