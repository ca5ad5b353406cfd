use pink_drink::chain_extension::{DispatchError, PinkError};
use pink_drink::extension::{
    CallInCommand, CallInQuery, Dispatched, Environment, OutputBuffer, PinkExtension, RetVal,
};
use pink_drink::types::{AccountId, ExecMode};
use std::cell::RefCell;

fn env(ext_id: u16, func_id: u16) -> Environment {
    Environment { ext_id, func_id, address: AccountId([3u8; 32]) }
}

fn no_query(_id: u16, _backend: CallInQuery) -> Dispatched {
    panic!("the query backend must not be asked")
}

fn no_command(_id: u16, _backend: CallInCommand) -> Dispatched {
    panic!("the command backend must not be asked")
}

fn no_write(_bytes: Vec<u8>) -> bool {
    panic!("nothing must be written")
}

#[test]
fn the_extension_is_enabled() {
    assert!(PinkExtension::enabled());
}

#[test]
fn an_unknown_extension_is_refused_before_any_dispatch() {
    for mode in [None, Some(ExecMode::Query), Some(ExecMode::Transaction)] {
        for ext_id in [1u16, 2, u16::MAX] {
            let r = PinkExtension.call(&env(ext_id, 1), mode, no_query, no_command, no_write);
            assert_eq!(r, Err(DispatchError::Pink(PinkError::UnknownChainExtensionId)));
            let mut out = OutputBuffer::new(16);
            let r = PinkExtension.call_into(&env(ext_id, 1), mode, no_query, no_command, &mut out);
            assert_eq!(r, Err(DispatchError::Pink(PinkError::UnknownChainExtensionId)));
            assert_eq!(out.written, None);
        }
    }
}

#[test]
fn without_a_mode_the_query_backend_serves() {
    let mut out = OutputBuffer::new(16);
    let r = PinkExtension.call_into(
        &env(0, 12),
        None,
        |id: u16, backend: CallInQuery| {
            assert_eq!(id, 12);
            assert_eq!(*backend.address(), AccountId([3u8; 32]));
            Ok(Some((0, vec![backend.is_in_transaction().unwrap() as u8])))
        },
        no_command,
        &mut out,
    );
    assert_eq!(r, Ok(RetVal::Converging(0)));
    assert_eq!(out.written, Some(vec![0]));
}

#[test]
fn the_mode_selects_the_backend() {
    let mut out = OutputBuffer::new(16);
    let r = PinkExtension.call_into(
        &env(0, 12),
        Some(ExecMode::Query),
        |_id: u16, backend: CallInQuery| Ok(Some((0, vec![backend.is_in_transaction().unwrap() as u8]))),
        no_command,
        &mut out,
    );
    assert_eq!(r, Ok(RetVal::Converging(0)));
    assert_eq!(out.written, Some(vec![0]));

    let mut out = OutputBuffer::new(16);
    let r = PinkExtension.call_into(
        &env(0, 12),
        Some(ExecMode::Transaction),
        no_query,
        |id: u16, backend: CallInCommand| {
            assert_eq!(id, 12);
            assert_eq!(backend.as_in_query.address, AccountId([3u8; 32]));
            Ok(Some((7, vec![backend.is_in_transaction().unwrap() as u8])))
        },
        &mut out,
    );
    assert_eq!(r, Ok(RetVal::Converging(7)));
    assert_eq!(out.written, Some(vec![1]));
}

#[test]
fn an_unknown_function_is_refused() {
    let r = PinkExtension.call(&env(0, 999), None, |_id: u16, _b: CallInQuery| Ok(None), no_command, no_write);
    assert_eq!(r, Err(DispatchError::Pink(PinkError::UnknownChainExtensionFunction)));
    let r = PinkExtension.call(
        &env(0, 999),
        Some(ExecMode::Transaction),
        no_query,
        |_id: u16, _b: CallInCommand| Ok(None),
        no_write,
    );
    assert_eq!(r, Err(DispatchError::Pink(PinkError::UnknownChainExtensionFunction)));
}

#[test]
fn an_output_larger_than_the_buffer_overflows() {
    let mut out = OutputBuffer::new(3);
    let r = PinkExtension.call_into(
        &env(0, 1),
        None,
        |_id: u16, _b: CallInQuery| Ok(Some((0, vec![1, 2, 3, 4]))),
        no_command,
        &mut out,
    );
    assert_eq!(r, Err(DispatchError::Pink(PinkError::ContractIoBufferOverflow)));
    assert_eq!(out.written, None);
    assert_eq!(out.capacity, 3);

    let r = PinkExtension.call_into(
        &env(0, 1),
        None,
        |_id: u16, _b: CallInQuery| Ok(Some((5, vec![1, 2, 3]))),
        no_command,
        &mut out,
    );
    assert_eq!(r, Ok(RetVal::Converging(5)));
    assert_eq!(out.written, Some(vec![1, 2, 3]));

    let mut out = OutputBuffer::new(0);
    let r = PinkExtension.call_into(
        &env(0, 1),
        Some(ExecMode::Transaction),
        no_query,
        |_id: u16, _b: CallInCommand| Ok(Some((0, vec![]))),
        &mut out,
    );
    assert_eq!(r, Ok(RetVal::Converging(0)));
    assert_eq!(out.written, Some(vec![]));

    let r = PinkExtension.call_into(
        &env(0, 1),
        Some(ExecMode::Transaction),
        no_query,
        |_id: u16, _b: CallInCommand| Ok(Some((0, vec![0]))),
        &mut out,
    );
    assert_eq!(r, Err(DispatchError::Pink(PinkError::ContractIoBufferOverflow)));
    assert_eq!(out.written, Some(vec![]));
}

#[test]
fn the_output_is_handed_to_the_writer() {
    let taken: RefCell<Vec<Vec<u8>>> = RefCell::new(Vec::new());
    let r = PinkExtension.call(
        &env(0, 1),
        None,
        |_id: u16, _b: CallInQuery| Ok(Some((9, vec![1, 2]))),
        no_command,
        |bytes: Vec<u8>| {
            taken.borrow_mut().push(bytes);
            true
        },
    );
    assert_eq!(r, Ok(RetVal::Converging(9)));
    assert_eq!(taken.into_inner(), vec![vec![1, 2]]);
    let r = PinkExtension.call(
        &env(0, 1),
        None,
        |_id: u16, _b: CallInQuery| Ok(Some((9, vec![1, 2]))),
        no_command,
        |_bytes: Vec<u8>| false,
    );
    assert_eq!(r, Err(DispatchError::Pink(PinkError::ContractIoBufferOverflow)));
}

#[test]
fn a_failure_of_the_backend_is_passed_on() {
    let r = PinkExtension.call(
        &env(0, 16),
        None,
        |_id: u16, _b: CallInQuery| Err(DispatchError::BadOrigin),
        no_command,
        no_write,
    );
    assert_eq!(r, Err(DispatchError::BadOrigin));
    let mut out = OutputBuffer::new(64);
    let r = PinkExtension.call_into(
        &env(0, 16),
        Some(ExecMode::Transaction),
        no_query,
        |_id: u16, _b: CallInCommand| Err(DispatchError::Other("decode".to_string())),
        &mut out,
    );
    assert_eq!(r, Err(DispatchError::Other("decode".to_string())));
    assert_eq!(out.written, None);
}

#[test]
fn writing_to_the_buffer_checks_the_capacity() {
    let mut out = OutputBuffer::new(2);
    assert!(!out.write(vec![1, 2, 3]));
    assert_eq!(out.written, None);
    assert!(out.write(vec![1, 2]));
    assert_eq!(out.written, Some(vec![1, 2]));
    assert!(out.write(vec![]));
    assert_eq!(out.written, Some(vec![]));
    assert_eq!(out.capacity, 2);
}
