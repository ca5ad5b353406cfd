//! The chain extension: the one door through which a contract calls the
//! host.
//!
//! A call names an extension and a function. The dispatcher checks the
//! extension, reads the current mode and hands the call to one of two
//! backends: the query backend, which may use live services, or the command
//! backend, whose every answer is determined by the call and the chain state.
//! What the backend answers is written to the contract's output buffer.

use vstd::prelude::*;
use crate::chain_extension::{DispatchError, DispatchErrorView, PinkError};
use crate::mode::{effective_mode, mode_or_query};
use crate::types::{AccountId, ExecMode};

verus! {

/// How a host call ends for the contract.
#[derive(Debug, Clone, Copy, PartialEq, Eq, Structural)]
pub enum RetVal {
    /// The contract goes on, with this status code.
    Converging(u32),
}

/// What the dispatcher reads of a host call: the two numbers that the
/// contract gave and who the contract is.
#[derive(Debug, Clone, Copy)]
pub struct Environment {
    /// The number of the extension.
    pub ext_id: u16,
    /// The number of the function.
    pub func_id: u16,
    /// The address of the calling contract.
    pub address: AccountId,
}

/// The buffer that a contract offers for the output of a host call.
#[derive(Debug)]
pub struct OutputBuffer {
    /// How many bytes the buffer holds.
    pub capacity: u32,
    /// What was written, once something was.
    pub written: Option<Vec<u8>>,
}

impl OutputBuffer {
    /// An empty buffer of the given size.
    pub fn new(capacity: u32) -> (r: OutputBuffer)
        ensures
            r == (OutputBuffer { capacity, written: None }),
    {
        OutputBuffer { capacity, written: None }
    }

    /// Writes `bytes` to the buffer.
    ///
    /// Succeeds if and only if the bytes fit; otherwise nothing is written.
    pub fn write(&mut self, bytes: Vec<u8>) -> (r: bool)
        ensures
            r == (bytes@.len() <= old(self).capacity),
            r ==> *final(self) == (OutputBuffer { written: Some(bytes), ..*old(self) }),
            !r ==> *final(self) == *old(self),
    {
        if bytes.len() > self.capacity as usize {
            false
        } else {
            self.written = Some(bytes);
            true
        }
    }
}

/// The query backend: live services on behalf of one contract.
#[derive(Debug, Clone, Copy)]
pub struct CallInQuery {
    /// The contract that calls.
    pub address: AccountId,
}

/// The command backend: deterministic answers on behalf of one contract.
#[derive(Debug, Clone, Copy)]
pub struct CallInCommand {
    /// The query backend of the same contract, for what is deterministic
    /// there too.
    pub as_in_query: CallInQuery,
}

/// What a backend made of a function number: a status code with the output,
/// nothing where it has no such function, or a failure.
pub type Dispatched = Result<Option<(u32, Vec<u8>)>, DispatchError>;

/// What the dispatcher makes of a backend's answer, given whether the
/// output could be written: the status code, or the failure.
pub open spec fn settled(answer: Dispatched, written: bool) -> Result<u32, DispatchErrorView> {
    match answer {
        Err(e) => Err(e@),
        Ok(None) => Err(DispatchErrorView::Pink(PinkError::UnknownChainExtensionFunction)),
        Ok(Some((code, _))) => if written {
            Ok(code)
        } else {
            Err(DispatchErrorView::Pink(PinkError::ContractIoBufferOverflow))
        },
    }
}

/// The content of the dispatcher's result.
pub open spec fn call_result(r: Result<RetVal, DispatchError>) -> Result<u32, DispatchErrorView> {
    match r {
        Ok(RetVal::Converging(code)) => Ok(code),
        Err(e) => Err(e@),
    }
}

/// Whether `answer` is what the backend that `mode` selects gave for the
/// call in `env`: the query backend under a query and where no mode is
/// bound, the command backend under a transaction.
pub open spec fn dispatched<Q, C>(
    env: Environment,
    mode: Option<ExecMode>,
    in_query: Q,
    in_command: C,
    answer: Dispatched,
) -> bool where
    Q: FnOnce(u16, CallInQuery) -> Dispatched,
    C: FnOnce(u16, CallInCommand) -> Dispatched,
 {
    if mode_or_query(mode) == ExecMode::Query {
        in_query.ensures((env.func_id, CallInQuery { address: env.address }), answer)
    } else {
        in_command.ensures(
            (
                env.func_id,
                CallInCommand { as_in_query: CallInQuery { address: env.address } },
            ),
            answer,
        )
    }
}

/// The extension through which contracts reach the host.
#[derive(Debug, Clone, Copy, Default)]
pub struct PinkExtension;

impl PinkExtension {
    /// Whether the extension is switched on. It always is.
    pub fn enabled() -> (r: bool)
        ensures
            r,
    {
        true
    }

    /// Serves one host call.
    ///
    /// An extension number other than zero is refused before anything else
    /// happens. Otherwise the backend that the mode selects is asked, by the
    /// function number and on behalf of the calling contract. Its failure is
    /// passed on and a function that it does not have is refused. Its output
    /// is handed to `write`, which stands for the contract's output buffer:
    /// where the output is written the backend's status code is returned,
    /// where it is not the call fails as an overflow of the buffer.
    pub fn call<Q, C, W>(
        &mut self,
        env: &Environment,
        mode: Option<ExecMode>,
        in_query: Q,
        in_command: C,
        write: W,
    ) -> (r: Result<RetVal, DispatchError>) where
        Q: FnOnce(u16, CallInQuery) -> Dispatched,
        C: FnOnce(u16, CallInCommand) -> Dispatched,
        W: FnOnce(Vec<u8>) -> bool,

        requires
            env.ext_id == 0 && mode_or_query(mode) == ExecMode::Query ==> in_query.requires(
                (env.func_id, CallInQuery { address: env.address }),
            ),
            env.ext_id == 0 && mode_or_query(mode) == ExecMode::Transaction
                ==> in_command.requires(
                (env.func_id, CallInCommand { as_in_query: CallInQuery { address: env.address } }),
            ),
            env.ext_id == 0 ==> forall|output: Vec<u8>| write.requires((output,)),
        ensures
            env.ext_id != 0 ==> call_result(r) == Err::<u32, DispatchErrorView>(
                DispatchErrorView::Pink(PinkError::UnknownChainExtensionId),
            ),
            env.ext_id == 0 ==> exists|answer: Dispatched, written: bool|
                dispatched(*env, mode, in_query, in_command, answer) && (answer matches Ok(
                    Some(found),
                ) ==> write.ensures((found.1,), written)) && call_result(r) == settled(
                    answer,
                    written,
                ),
    {
        let found = Self::dispatch(env, mode, in_query, in_command);
        let ghost answer: Dispatched = if env.ext_id == 0 {
            choose|answer: Dispatched|
                dispatched(*env, mode, in_query, in_command, answer) && match found {
                    Ok(found) => answer == Ok::<Option<(u32, Vec<u8>)>, DispatchError>(
                        Some(found),
                    ),
                    Err(e) => !(answer matches Ok(Some(_))) && settled(answer, true) == Err::<
                        u32,
                        DispatchErrorView,
                    >(e@),
                }
        } else {
            arbitrary()
        };
        let (code, output) = match found {
            Ok(found) => found,
            Err(e) => {
                assert(env.ext_id == 0 ==> call_result(Err(e)) == settled(answer, true));
                return Err(e);
            },
        };
        let written = write(output);
        let r = if written {
            Ok(RetVal::Converging(code))
        } else {
            Err(DispatchError::Pink(PinkError::ContractIoBufferOverflow))
        };
        assert(call_result(r) == settled(answer, written));
        r
    }

    /// Serves one host call of a contract whose output buffer is `out`.
    ///
    /// As [`PinkExtension::call`], with the buffer at hand: the call fails
    /// as an overflow exactly where the backend's output is longer than the
    /// buffer, and then the buffer stays as it was. Where the call succeeds
    /// the buffer holds the output.
    pub fn call_into<Q, C>(
        &mut self,
        env: &Environment,
        mode: Option<ExecMode>,
        in_query: Q,
        in_command: C,
        out: &mut OutputBuffer,
    ) -> (r: Result<RetVal, DispatchError>) where
        Q: FnOnce(u16, CallInQuery) -> Dispatched,
        C: FnOnce(u16, CallInCommand) -> Dispatched,

        requires
            env.ext_id == 0 && mode_or_query(mode) == ExecMode::Query ==> in_query.requires(
                (env.func_id, CallInQuery { address: env.address }),
            ),
            env.ext_id == 0 && mode_or_query(mode) == ExecMode::Transaction
                ==> in_command.requires(
                (env.func_id, CallInCommand { as_in_query: CallInQuery { address: env.address } }),
            ),
        ensures
            env.ext_id != 0 ==> call_result(r) == Err::<u32, DispatchErrorView>(
                DispatchErrorView::Pink(PinkError::UnknownChainExtensionId),
            ) && *final(out) == *old(out),
            env.ext_id == 0 ==> exists|answer: Dispatched|
                dispatched(*env, mode, in_query, in_command, answer) && match answer {
                    Ok(Some(found)) => {
                        let fits = found.1@.len() <= old(out).capacity;
                        &&& call_result(r) == settled(answer, fits)
                        &&& fits ==> final(out).capacity == old(out).capacity
                        &&& fits ==> (final(out).written matches Some(bytes) && bytes@
                            == found.1@)
                        &&& !fits ==> *final(out) == *old(out)
                    },
                    _ => call_result(r) == settled(answer, true) && *final(out) == *old(out),
                },
    {
        let (code, output) = match Self::dispatch(env, mode, in_query, in_command) {
            Ok(found) => found,
            Err(e) => {
                return Err(e);
            },
        };
        if out.write(output) {
            Ok(RetVal::Converging(code))
        } else {
            Err(DispatchError::Pink(PinkError::ContractIoBufferOverflow))
        }
    }

    /// The part of a host call up to the backend's answer: the status code
    /// and the output where there are any, else the failure.
    fn dispatch<Q, C>(env: &Environment, mode: Option<ExecMode>, in_query: Q, in_command: C) -> (r:
        Result<(u32, Vec<u8>), DispatchError>) where
        Q: FnOnce(u16, CallInQuery) -> Dispatched,
        C: FnOnce(u16, CallInCommand) -> Dispatched,

        requires
            env.ext_id == 0 && mode_or_query(mode) == ExecMode::Query ==> in_query.requires(
                (env.func_id, CallInQuery { address: env.address }),
            ),
            env.ext_id == 0 && mode_or_query(mode) == ExecMode::Transaction
                ==> in_command.requires(
                (env.func_id, CallInCommand { as_in_query: CallInQuery { address: env.address } }),
            ),
        ensures
            env.ext_id != 0 ==> (r matches Err(e) && e@ == DispatchErrorView::Pink(
                PinkError::UnknownChainExtensionId,
            )),
            env.ext_id == 0 ==> exists|answer: Dispatched|
                dispatched(*env, mode, in_query, in_command, answer) && match r {
                    Ok(found) => answer == Ok::<Option<(u32, Vec<u8>)>, DispatchError>(
                        Some(found),
                    ),
                    Err(e) => !(answer matches Ok(Some(_))) && settled(answer, true) == Err::<
                        u32,
                        DispatchErrorView,
                    >(e@),
                },
    {
        if env.ext_id != 0 {
            return Err(DispatchError::Pink(PinkError::UnknownChainExtensionId));
        }
        let call_in_query = CallInQuery { address: env.address };
        let answer = if effective_mode(mode).is_query() {
            in_query(env.func_id, call_in_query)
        } else {
            let call_in_command = CallInCommand { as_in_query: call_in_query };
            in_command(env.func_id, call_in_command)
        };
        let ghost seen = answer;
        assert(dispatched(*env, mode, in_query, in_command, seen));
        match answer {
            Err(e) => Err(e),
            Ok(None) => Err(DispatchError::Pink(PinkError::UnknownChainExtensionFunction)),
            Ok(Some(found)) => Ok(found),
        }
    }
}

/// A host call made while no mode is bound is served as a query: the
/// answer is the query backend's.
pub proof fn lemma_unbound_mode_asks_the_query_backend<Q, C>(
    env: Environment,
    in_query: Q,
    in_command: C,
    answer: Dispatched,
) where Q: FnOnce(u16, CallInQuery) -> Dispatched, C: FnOnce(u16, CallInCommand) -> Dispatched
    ensures
        dispatched(env, None, in_query, in_command, answer) == in_query.ensures(
            (env.func_id, CallInQuery { address: env.address }),
            answer,
        ),
        dispatched(env, None, in_query, in_command, answer) == dispatched(
            env,
            Some(ExecMode::Query),
            in_query,
            in_command,
            answer,
        ),
{
}

/// Under a transaction a host call is served by the command backend, on
/// behalf of the same contract.
pub proof fn lemma_transaction_asks_the_command_backend<Q, C>(
    env: Environment,
    in_query: Q,
    in_command: C,
    answer: Dispatched,
) where Q: FnOnce(u16, CallInQuery) -> Dispatched, C: FnOnce(u16, CallInCommand) -> Dispatched
    ensures
        dispatched(env, Some(ExecMode::Transaction), in_query, in_command, answer)
            == in_command.ensures(
            (env.func_id, CallInCommand { as_in_query: CallInQuery { address: env.address } }),
            answer,
        ),
{
}

/// An output that the contract's buffer does not take makes the call fail
/// as an overflow, and one that it takes makes the call return the
/// backend's status code.
pub proof fn lemma_unwritten_output_is_an_overflow(code: u32, output: Vec<u8>)
    ensures
        settled(Ok(Some((code, output))), false) == Err::<u32, DispatchErrorView>(
            DispatchErrorView::Pink(PinkError::ContractIoBufferOverflow),
        ),
        settled(Ok(Some((code, output))), true) == Ok::<u32, DispatchErrorView>(code),
{
}

} // verus!
