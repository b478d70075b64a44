//! What the agent-signing interface of a conductor computes around its
//! cryptography: the seed of a test agent's keys, and the payload of a
//! signing request.

use vstd::prelude::*;

verus! {

/// The number of bytes in the seed of a key bundle.
pub const SEED_SIZE: usize = 32;

/// The seed of a test agent with the given nick name, as bytes: the first
/// bytes of the nick name, then for each place up to the last but one the
/// number of that place, counted from one, then zero.
pub open spec fn test_agent_seed(nick: Seq<u8>) -> Seq<u8> {
    Seq::new(
        SEED_SIZE as nat,
        |i: int|
            if i == SEED_SIZE - 1 {
                0u8
            } else if i < nick.len() {
                nick[i]
            } else {
                (i + 1) as u8
            },
    )
}

/// The seed from which the keys of the test agent with the given nick name
/// are made. The same nick name always gives the same seed.
pub fn seed_from_nick(nick: &str) -> (seed: Vec<u8>)
    ensures
        seed@ == test_agent_seed(vstd::utf8::encode_utf8(nick@)),
{
    let nick_bytes = nick.as_bytes();
    let mut seed: Vec<u8> = Vec::new();
    let mut num: usize = 1;
    while num < SEED_SIZE
        invariant
            1 <= num <= SEED_SIZE,
            seed.len() == num - 1,
            nick_bytes@ == vstd::utf8::encode_utf8(nick@),
            forall|i: int| 0 <= i < seed.len() ==> seed@[i] == test_agent_seed(nick_bytes@)[i],
        decreases SEED_SIZE - num,
    {
        let byte: u8 = if num <= nick_bytes.len() {
            nick_bytes[num - 1]
        } else {
            num as u8
        };
        seed.push(byte);
        num += 1;
    }
    seed.push(0);
    seed
}

/// The value of a parameter of a request, as far as the signing interface
/// reads it.
#[derive(Debug, PartialEq, Eq)]
pub enum ParamValue {
    /// A JSON string.
    String(String),
    /// Any other JSON value.
    Other,
}

/// The parameters of a request.
#[derive(Debug, PartialEq, Eq)]
pub enum Params {
    /// Parameters by name. Where a name occurs twice, the first counts.
    Named(Vec<(String, ParamValue)>),
    /// Parameters by position, or none.
    Other,
}

/// Mathematical model of a [`ParamValue`].
pub enum ParamValueView {
    String(Seq<char>),
    Other,
}

impl View for ParamValue {
    type V = ParamValueView;

    open spec fn view(&self) -> ParamValueView {
        match self {
            ParamValue::String(text) => ParamValueView::String(text@),
            ParamValue::Other => ParamValueView::Other,
        }
    }
}

/// Mathematical model of a [`Params`].
pub enum ParamsView {
    Named(Seq<(Seq<char>, ParamValueView)>),
    Other,
}

impl View for Params {
    type V = ParamsView;

    open spec fn view(&self) -> ParamsView {
        match self {
            Params::Named(map) => ParamsView::Named(
                Seq::new(map@.len(), |i: int| (map@[i].0@, map@[i].1@)),
            ),
            Params::Other => ParamsView::Other,
        }
    }
}

/// The value of the first parameter named `key` among those from place
/// `from` on, if there is one.
pub open spec fn param_named(map: Seq<(Seq<char>, ParamValueView)>, key: Seq<char>, from: int)
    -> Option<ParamValueView>
    decreases map.len() - from,
{
    if from < 0 || from >= map.len() {
        None
    } else if map[from].0 == key {
        Some(map[from].1)
    } else {
        param_named(map, key, from + 1)
    }
}

/// The payload that a signing request asks to have signed, or the message
/// that says what is wrong with its parameters: they must be given by name,
/// and `payload` must be among them and be a string.
pub open spec fn request_payload(params: ParamsView) -> Result<Seq<char>, Seq<char>> {
    match params {
        ParamsView::Other => Err("expected params map"@),
        ParamsView::Named(map) => match param_named(map, "payload"@, 0) {
            None => Err("`payload` param not provided"@),
            Some(ParamValueView::Other) => Err("`payload` is not a valid json string"@),
            Some(ParamValueView::String(payload)) => Ok(payload),
        },
    }
}

/// The view of a payload or of the message that took its place.
pub open spec fn payload_view(payload: Result<String, String>) -> Result<Seq<char>, Seq<char>> {
    match payload {
        Ok(text) => Ok(text@),
        Err(message) => Err(message@),
    }
}

/// Reads from the parameters of a signing request the payload that is to
/// be signed. The error is the message for an "invalid params" answer.
pub fn payload_of_request(params: &Params) -> (payload: Result<String, String>)
    ensures
        payload_view(payload) == request_payload(params@),
{
    match params {
        Params::Other => Err(String::from_str("expected params map")),
        Params::Named(map) => {
            let key = String::from_str("payload");
            let mut i: usize = 0;
            while i < map.len()
                invariant
                    i <= map.len(),
                    key@ == "payload"@,
                    params@ matches ParamsView::Named(pairs) && pairs.len() == map.len() && (forall|
                        k: int,
                    |
                        0 <= k < map.len() ==> pairs[k] == (map@[k].0@, map@[k].1@)) && param_named(
                        pairs,
                        "payload"@,
                        0,
                    ) == param_named(pairs, "payload"@, i as int),
                decreases map.len() - i,
            {
                if map[i].0 == key {
                    return match &map[i].1 {
                        ParamValue::String(payload) => Ok(payload.clone()),
                        ParamValue::Other => Err(
                            String::from_str("`payload` is not a valid json string"),
                        ),
                    };
                }
                i += 1;
            }
            Err(String::from_str("`payload` param not provided"))
        },
    }
}

} // verus!
