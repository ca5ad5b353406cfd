//! JavaScript code handed to the sidecar and the values that come back.

use pink_extension::chain_extension::JsValue as Outside;
use vstd::prelude::*;

verus! {

/// One piece of JavaScript to evaluate.
#[derive(Debug, Clone, PartialEq, Eq)]
pub enum JsCode {
    /// Source text.
    Source(String),
    /// Compiled bytecode.
    Bytecode(Vec<u8>),
}

/// The mathematical content of a [`JsCode`].
pub enum JsCodeView {
    Source(Seq<char>),
    Bytecode(Seq<u8>),
}

impl View for JsCode {
    type V = JsCodeView;

    open spec fn view(&self) -> JsCodeView {
        match self {
            JsCode::Source(text) => JsCodeView::Source(text@),
            JsCode::Bytecode(bytes) => JsCodeView::Bytecode(bytes@),
        }
    }
}

/// The result of an evaluation.
#[derive(Debug, Clone, PartialEq, Eq)]
pub enum JsValue {
    /// `undefined`.
    Undefined,
    /// `null`.
    Null,
    /// A string.
    String(String),
    /// A byte array.
    Bytes(Vec<u8>),
    /// Any other value, rendered as text.
    Other(String),
    /// The evaluation failed; the text says why.
    Exception(String),
}

/// The mathematical content of a [`JsValue`].
pub enum JsValueView {
    Undefined,
    Null,
    String(Seq<char>),
    Bytes(Seq<u8>),
    Other(Seq<char>),
    Exception(Seq<char>),
}

impl View for JsValue {
    type V = JsValueView;

    open spec fn view(&self) -> JsValueView {
        match self {
            JsValue::Undefined => JsValueView::Undefined,
            JsValue::Null => JsValueView::Null,
            JsValue::String(text) => JsValueView::String(text@),
            JsValue::Bytes(bytes) => JsValueView::Bytes(bytes@),
            JsValue::Other(text) => JsValueView::Other(text@),
            JsValue::Exception(text) => JsValueView::Exception(text@),
        }
    }
}

/// The value that the bytes of a sidecar output denote, where they denote
/// one: the value whose layout stands at the start of `bytes`.
pub uninterp spec fn decoded_js_value(bytes: Seq<u8>) -> Option<JsValueView>;

/// Calls `parity_scale_codec::Decode::decode` for the sidecar's value type,
/// `pink_extension::chain_extension::JsValue`, and copies the value variant
/// by variant. Trusted: whether the bytes decode, and to which value, depends
/// on the bytes alone. Of the text of a decoding error nothing is claimed.
#[verifier::external_body]
pub(crate) fn decode_js_value(bytes: &[u8]) -> (r: Result<JsValue, String>)
    ensures
        decoded_js_value(bytes@) == match r {
            Ok(value) => Some(value@),
            Err(_) => None,
        },
{
    match <Outside as parity_scale_codec::Decode>::decode(&mut &bytes[..]) {
        Ok(Outside::Undefined) => Ok(JsValue::Undefined),
        Ok(Outside::Null) => Ok(JsValue::Null),
        Ok(Outside::String(text)) => Ok(JsValue::String(text)),
        Ok(Outside::Bytes(bytes)) => Ok(JsValue::Bytes(bytes)),
        Ok(Outside::Other(text)) => Ok(JsValue::Other(text)),
        Ok(Outside::Exception(text)) => Ok(JsValue::Exception(text)),
        Err(e) => Err(format!("{}", e)),
    }
}

} // verus!
