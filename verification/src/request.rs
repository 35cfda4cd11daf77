//! What is asked of a sandbox, and what came back.

use vstd::prelude::*;

use crate::channel::ReleaseChannel;

verus! {

/// A request as the cache files it: the channel's ordinal, the command, the
/// arguments in order and the input, each text as its characters.
pub type RequestKey = (u8, Seq<char>, Seq<Seq<char>>, Seq<char>);

/// A result as the cache holds it: the raw exit status and the output bytes.
pub type ResultValue = (i32, Seq<u8>);

/// The status a process ended with, as the runtime reported it: the wait
/// status that the operating system gave, which is zero exactly when the
/// process exited with success. It is carried through as it is.
#[derive(Debug, Clone, Copy, PartialEq, Eq, Structural)]
pub struct ExitStatus {
    pub raw: i32,
}

impl ExitStatus {
    /// The status that a raw wait status stands for.
    pub fn from_raw(raw: i32) -> (status: ExitStatus)
        ensures
            status.raw == raw,
    {
        ExitStatus { raw }
    }

    /// The raw wait status.
    pub fn into_raw(self) -> (raw: i32)
        ensures
            raw == self.raw,
    {
        self.raw
    }

    /// Whether the process exited with success.
    pub fn success(&self) -> (ok: bool)
        ensures
            ok == (self.raw == 0),
    {
        self.raw == 0
    }
}

/// Everything that can affect what a sandboxed run gives: two requests are
/// interchangeable exactly when all four fields are the same.
#[derive(Debug, Clone, PartialEq, Eq, Hash)]
pub struct ExecutionRequest {
    pub channel: ReleaseChannel,
    pub command: String,
    pub arguments: Vec<String>,
    pub input: String,
}

impl View for ExecutionRequest {
    type V = RequestKey;

    open spec fn view(&self) -> RequestKey {
        (self.channel.ordinal(), self.command@, self.arguments.deep_view(), self.input@)
    }
}

/// The exit status and the captured output of one run.
#[derive(Debug, Clone, PartialEq, Eq)]
pub struct ExecutionResult {
    pub status: ExitStatus,
    pub output: Vec<u8>,
}

impl View for ExecutionResult {
    type V = ResultValue;

    open spec fn view(&self) -> ResultValue {
        (self.status.raw, self.output@)
    }
}

impl ExecutionRequest {
    /// The request to run `command` with `arguments` on `input` in a sandbox
    /// of the channel's image.
    pub fn new(
        channel: ReleaseChannel,
        command: &str,
        arguments: Vec<String>,
        input: String,
    ) -> (request: ExecutionRequest)
        ensures
            request.channel == channel,
            request.command@ == command@,
            request.arguments == arguments,
            request.input == input,
    {
        ExecutionRequest { channel, command: command.to_owned(), arguments, input }
    }

    /// Requests have one key exactly when they agree on every field: a change
    /// to the channel, the command, any argument or the input changes the key.
    pub proof fn lemma_key_names_every_field(a: ExecutionRequest, b: ExecutionRequest)
        ensures
            a@ == b@ <==> {
                &&& a.channel == b.channel
                &&& a.command@ == b.command@
                &&& a.arguments.deep_view() == b.arguments.deep_view()
                &&& a.input@ == b.input@
            },
    {
        ReleaseChannel::lemma_channels_distinct(a.channel, b.channel);
    }
}

} // verus!
