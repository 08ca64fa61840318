//! A strongly-typed model of a contract's interface: parameter kinds,
//! argument tokens and function definitions, with call-data encoding.
//!
//! Selector computation and argument encoding are the application-binary-
//! interface collaborator's work, called through trusted items; resolving a
//! function by name and holding arguments against its declared parameters
//! are this library's own, verified logic.

use vstd::prelude::*;

use crate::types::{Address, U256};
use crate::HarnessError;

verus! {

/// A parameter kind of a contract function, as its interface declares it.
/// These five kinds are the model's deliberate scope: they cover every
/// fixture contract the harness builds transactions against. Signed
/// integers, strings, arrays and tuples are refused at interface
/// resolution rather than modelled.
#[derive(Clone, Copy, Debug, PartialEq, Eq, Structural)]
pub enum ParamKind {
    Address,
    /// An unsigned integer of the given bit width.
    Uint(usize),
    Bool,
    /// A dynamic byte string.
    Bytes,
    /// A fixed byte string of the given length.
    FixedBytes(usize),
}

/// An argument value for a contract call.
#[derive(Debug)]
pub enum Token {
    Address(Address),
    Uint(U256),
    Bool(bool),
    Bytes(Vec<u8>),
    FixedBytes(Vec<u8>),
}

/// What a token is mathematically: its kind and its bytes.
pub enum TokenModel {
    Address(Seq<u8>),
    Uint(Seq<u8>),
    Bool(bool),
    Bytes(Seq<u8>),
    FixedBytes(Seq<u8>),
}

impl View for Token {
    type V = TokenModel;

    open spec fn view(&self) -> TokenModel {
        match self {
            Token::Address(a) => TokenModel::Address(a@),
            Token::Uint(u) => TokenModel::Uint(u@),
            Token::Bool(b) => TokenModel::Bool(*b),
            Token::Bytes(b) => TokenModel::Bytes(b@),
            Token::FixedBytes(b) => TokenModel::FixedBytes(b@),
        }
    }
}

impl Token {
    /// The length invariants of a token's payload.
    pub open spec fn wf(&self) -> bool {
        match self@ {
            TokenModel::Address(a) => a.len() == 20,
            TokenModel::Uint(u) => u.len() == 32,
            _ => true,
        }
    }
}

/// The token sequences a sequence of exec tokens stands for.
pub open spec fn token_models(ts: Seq<Token>) -> Seq<TokenModel> {
    ts.map_values(|t: Token| t@)
}

/// Whether a token fits a declared parameter kind: kinds must agree; a
/// fixed byte string also may not be longer than the declared length, and
/// an unsigned integer fits any declared width.
pub open spec fn token_matches(t: TokenModel, k: ParamKind) -> bool {
    match t {
        TokenModel::Address(_) => k == ParamKind::Address,
        TokenModel::Uint(_) => k matches ParamKind::Uint(_),
        TokenModel::Bool(_) => k == ParamKind::Bool,
        TokenModel::Bytes(_) => k == ParamKind::Bytes,
        TokenModel::FixedBytes(b) => k matches ParamKind::FixedBytes(n) && b.len() <= n,
    }
}

/// Whether an argument list fits a parameter list: same arity, every token
/// fitting its parameter.
pub open spec fn tokens_match(ts: Seq<TokenModel>, ks: Seq<ParamKind>) -> bool {
    ts.len() == ks.len() && forall|i: int| 0 <= i < ts.len() ==> token_matches(#[trigger] ts[i], ks[i])
}

/// The decimal digits.
pub open spec fn is_dec_digit(c: char) -> bool {
    48 <= c as u32 <= 57
}

pub open spec fn all_dec_digits(s: Seq<char>) -> bool {
    forall|i: int| 0 <= i < s.len() ==> is_dec_digit(#[trigger] s[i])
}

/// The number a string of decimal digits denotes.
pub open spec fn dec_value_of(s: Seq<char>) -> int
    decreases s.len(),
{
    if s.len() == 0 {
        0
    } else {
        dec_value_of(s.drop_last()) * 10 + (s.last() as u32 - 48)
    }
}

/// The parameter kind a declared type string denotes, if the library
/// models it: `address`, `bool`, `bytes`, `uint` or `uintN` for a width up
/// to 256, and `bytesN` for a length up to 32.
pub open spec fn param_kind_of(s: Seq<char>) -> Option<ParamKind> {
    if s == "address"@ {
        Some(ParamKind::Address)
    } else if s == "bool"@ {
        Some(ParamKind::Bool)
    } else if s == "bytes"@ {
        Some(ParamKind::Bytes)
    } else if s == "uint"@ {
        Some(ParamKind::Uint(256))
    } else if 5 <= s.len() <= 7 && s.take(4) == "uint"@ && all_dec_digits(s.skip(4)) && 1
        <= dec_value_of(s.skip(4)) <= 256 {
        Some(ParamKind::Uint(dec_value_of(s.skip(4)) as usize))
    } else if 6 <= s.len() <= 7 && s.take(5) == "bytes"@ && all_dec_digits(s.skip(5)) && 1
        <= dec_value_of(s.skip(5)) <= 32 {
        Some(ParamKind::FixedBytes(dec_value_of(s.skip(5)) as usize))
    } else {
        None
    }
}

/// Reads the decimal digits of `s` from `from` to its end: their value, or
/// nothing where a character is no digit. The span is at most three digits
/// long.
fn parse_dec_value(s: &str, from: usize, len: usize) -> (r: Option<u32>)
    requires
        from <= len,
        len == s@.len(),
        len - from <= 3,
    ensures
        r is Some <==> all_dec_digits(s@.skip(from as int)),
        r matches Some(w) ==> w as int == dec_value_of(s@.skip(from as int)) && w <= 999,
{
    let mut w: u32 = 0;
    let mut i: usize = from;
    proof {
        assert(s@.subrange(from as int, from as int) =~= Seq::<char>::empty());
    }
    while i < len
        invariant
            from <= i <= len,
            len == s@.len(),
            len - from <= 3,
            w as int == dec_value_of(s@.subrange(from as int, i as int)),
            forall|j: int| from <= j < i ==> is_dec_digit(#[trigger] s@[j]),
            i - from == 0 ==> w == 0,
            i - from == 1 ==> w <= 9,
            i - from == 2 ==> w <= 99,
            i - from == 3 ==> w <= 999,
        decreases len - i,
    {
        let d = s.get_char(i) as u32;
        if d < 48 || d > 57 {
            proof {
                assert(!is_dec_digit(s@[i as int]));
                assert(s@.skip(from as int)[i - from as int] == s@[i as int]);
            }
            return None;
        }
        w = w * 10 + (d - 48);
        proof {
            assert(s@.subrange(from as int, i as int + 1).drop_last() =~= s@.subrange(
                from as int,
                i as int,
            ));
            assert(s@.subrange(from as int, i as int + 1).last() == s@[i as int]);
        }
        i = i + 1;
    }
    proof {
        assert(s@.subrange(from as int, len as int) =~= s@.skip(from as int));
        assert forall|j: int| 0 <= j < s@.skip(from as int).len() implies is_dec_digit(
            #[trigger] s@.skip(from as int)[j],
        ) by {
            assert(s@.skip(from as int)[j] == s@[j + from]);
        }
    }
    Some(w)
}

/// Resolves a declared parameter type string into the library's tagged
/// kind: `address`, `bool`, `bytes`, `uint` or `uintN` up to 256 bits, and
/// `bytesN` up to 32 bytes. Any other string is a fixture mismatch.
pub fn parse_param_kind(s: &str) -> (r: Result<ParamKind, HarnessError>)
    ensures
        r is Ok <==> param_kind_of(s@) is Some,
        r matches Ok(k) ==> param_kind_of(s@) == Some(k),
        r matches Err(e) ==> e == HarnessError::ArtifactNotFound,
{
    let owned: String = s.to_owned();
    if owned == "address".to_owned() {
        return Ok(ParamKind::Address);
    }
    if owned == "bool".to_owned() {
        return Ok(ParamKind::Bool);
    }
    if owned == "bytes".to_owned() {
        return Ok(ParamKind::Bytes);
    }
    if owned == "uint".to_owned() {
        return Ok(ParamKind::Uint(256));
    }
    let len = s.unicode_len();
    proof {
        reveal_strlit("uint");
        reveal_strlit("bytes");
    }
    if 5 <= len && len <= 7 && s.get_char(0) == 'u' && s.get_char(1) == 'i' && s.get_char(2) == 'n'
        && s.get_char(3) == 't' {
        proof {
            assert(s@.take(4) =~= "uint"@);
        }
        if let Some(w) = parse_dec_value(s, 4, len) {
            if 1 <= w && w <= 256 {
                return Ok(ParamKind::Uint(w as usize));
            }
        }
        proof {
            // A string that starts with `uint` cannot be a `bytesN` kind.
            assert(s@.len() >= 5 ==> s@.take(5)[0] == s@[0]);
            assert(s@[0] == 'u');
        }
        return Err(HarnessError::ArtifactNotFound);
    }
    if 6 <= len && len <= 7 && s.get_char(0) == 'b' && s.get_char(1) == 'y' && s.get_char(2) == 't'
        && s.get_char(3) == 'e' && s.get_char(4) == 's' {
        proof {
            assert(s@.take(5) =~= "bytes"@);
        }
        if let Some(w) = parse_dec_value(s, 5, len) {
            if 1 <= w && w <= 32 {
                return Ok(ParamKind::FixedBytes(w as usize));
            }
        }
        proof {
            // A string that starts with `bytes` cannot be a `uintN` kind.
            assert(s@.take(4)[0] == s@[0]);
            assert(s@[0] == 'b');
        }
        return Err(HarnessError::ArtifactNotFound);
    }
    proof {
        if 5 <= s@.len() <= 7 && s@.take(4) == "uint"@ {
            assert(s@[0] == 'u' && s@[1] == 'i' && s@[2] == 'n' && s@[3] == 't') by {
                assert(s@.take(4)[0] == s@[0] && s@.take(4)[1] == s@[1] && s@.take(4)[2] == s@[2]
                    && s@.take(4)[3] == s@[3]);
            }
        }
        if 6 <= s@.len() <= 7 && s@.take(5) == "bytes"@ {
            assert(s@[0] == 'b' && s@[1] == 'y' && s@[2] == 't' && s@[3] == 'e' && s@[4] == 's')
                by {
                assert(s@.take(5)[0] == s@[0] && s@.take(5)[1] == s@[1] && s@.take(5)[2] == s@[2]
                    && s@.take(5)[3] == s@[3] && s@.take(5)[4] == s@[4]);
            }
        }
    }
    Err(HarnessError::ArtifactNotFound)
}

/// One function of a contract's interface: its name and the kinds of its
/// parameters.
#[derive(Clone, Debug)]
pub struct FunctionDef {
    pub name: String,
    pub inputs: Vec<ParamKind>,
}

/// A contract's resolved interface: its functions, in declaration order.
#[derive(Clone, Debug)]
pub struct Interface {
    pub functions: Vec<FunctionDef>,
}

/// The first function with the given name, if any.
pub open spec fn find_function(fns: Seq<FunctionDef>, name: Seq<char>) -> Option<FunctionDef>
    decreases fns.len(),
{
    if fns.len() == 0 {
        None
    } else if fns[0].name@ == name {
        Some(fns[0])
    } else {
        find_function(fns.skip(1), name)
    }
}

impl Interface {
    /// Resolves a function by name; absence is a fixture mismatch, reported
    /// as an artifact-not-found condition.
    pub fn function(&self, name: &str) -> (r: Result<&FunctionDef, HarnessError>)
        ensures
            r is Ok <==> find_function(self.functions@, name@) is Some,
            r matches Ok(f) ==> find_function(self.functions@, name@) == Some(*f),
            r matches Err(e) ==> e == HarnessError::ArtifactNotFound,
    {
        let want: String = name.to_owned();
        let n = self.functions.len();
        proof {
            assert(self.functions@.skip(0) =~= self.functions@);
        }
        let mut i: usize = 0;
        while i < n
            invariant
                i <= n,
                n == self.functions@.len(),
                want@ == name@,
                find_function(self.functions@, name@) == find_function(
                    self.functions@.skip(i as int),
                    name@,
                ),
            decreases n - i,
        {
            proof {
                assert(self.functions@.skip(i as int)[0] == self.functions@[i as int]);
                assert(self.functions@.skip(i as int).skip(1) =~= self.functions@.skip(i as int + 1));
            }
            if self.functions[i].name == want {
                return Ok(&self.functions[i]);
            }
            i = i + 1;
        }
        proof {
            assert(self.functions@.skip(n as int) =~= Seq::<FunctionDef>::empty());
        }
        Err(HarnessError::ArtifactNotFound)
    }
}

/// The four-byte selector of a function: what the application-binary
/// interface derives from the function's name and parameter kinds alone.
pub uninterp spec fn selector_of(name: Seq<char>, params: Seq<ParamKind>) -> Seq<u8>;

/// The encoding of an argument list: what the application-binary interface
/// derives from the tokens alone.
pub uninterp spec fn encode_of(tokens: Seq<TokenModel>) -> Seq<u8>;

/// Relies on ethabi::short_signature: the four-byte selector is a function
/// of the name and the parameter kinds alone.
#[verifier::external_body]
fn abi_short_signature(name: &str, params: &Vec<ParamKind>) -> (r: Vec<u8>)
    ensures
        r@ == selector_of(name@, params@),
        r@.len() == 4,
{
    let mut kinds: Vec<ethabi::ParamType> = Vec::new();
    for p in params.iter() {
        kinds.push(match p {
            ParamKind::Address => ethabi::ParamType::Address,
            ParamKind::Uint(w) => ethabi::ParamType::Uint(*w),
            ParamKind::Bool => ethabi::ParamType::Bool,
            ParamKind::Bytes => ethabi::ParamType::Bytes,
            ParamKind::FixedBytes(n) => ethabi::ParamType::FixedBytes(*n),
        });
    }
    ethabi::short_signature(name, &kinds).to_vec()
}

/// Relies on ethabi::encode: the encoding is a function of the tokens
/// alone.
#[verifier::external_body]
fn abi_encode(tokens: &Vec<Token>) -> (r: Vec<u8>)
    requires
        forall|i: int| 0 <= i < tokens@.len() ==> (#[trigger] tokens@[i]).wf(),
    ensures
        r@ == encode_of(token_models(tokens@)),
{
    let mut converted: Vec<ethabi::Token> = Vec::new();
    for t in tokens.iter() {
        converted.push(match t {
            Token::Address(a) => ethabi::Token::Address(ethabi::Address::from_slice(&a.bytes)),
            Token::Uint(u) => ethabi::Token::Uint(ethabi::Uint::from_big_endian(&u.bytes)),
            Token::Bool(b) => ethabi::Token::Bool(*b),
            Token::Bytes(b) => ethabi::Token::Bytes(b.clone()),
            Token::FixedBytes(b) => ethabi::Token::FixedBytes(b.clone()),
        });
    }
    ethabi::encode(&converted)
}

/// Encodes the arguments of an abstract token list. The empty list encodes
/// to the empty byte string, as a call with no arguments carries none.
pub(crate) fn encode_tokens(tokens: &Vec<Token>) -> (r: Vec<u8>)
    requires
        forall|i: int| 0 <= i < tokens@.len() ==> (#[trigger] tokens@[i]).wf(),
    ensures
        r@ == encode_of(token_models(tokens@)),
{
    abi_encode(tokens)
}

/// Prepares the call data for a function: the four-byte selector followed
/// by the encoded arguments. Fails with an encoding condition exactly when
/// the argument count or a token's kind does not fit the function's
/// declared parameters.
pub fn encode_input(function: &FunctionDef, args: &Vec<Token>) -> (r: Result<Vec<u8>, HarnessError>)
    requires
        forall|i: int| 0 <= i < args@.len() ==> (#[trigger] args@[i]).wf(),
    ensures
        r is Ok <==> tokens_match(token_models(args@), function.inputs@),
        r matches Ok(data) ==> data@ == selector_of(function.name@, function.inputs@) + encode_of(
            token_models(args@),
        ),
        r matches Err(e) ==> e == HarnessError::Encoding,
{
    if args.len() != function.inputs.len() {
        return Err(HarnessError::Encoding);
    }
    let ghost models = token_models(args@);
    let mut i: usize = 0;
    while i < args.len()
        invariant
            i <= args@.len(),
            args@.len() == function.inputs@.len(),
            models == token_models(args@),
            forall|j: int| 0 <= j < args@.len() ==> (#[trigger] args@[j]).wf(),
            forall|j: int| 0 <= j < i ==> token_matches(#[trigger] models[j], function.inputs@[j]),
        decreases args@.len() - i,
    {
        let ok = match (&args[i], &function.inputs[i]) {
            (Token::Address(_), ParamKind::Address) => true,
            (Token::Uint(_), ParamKind::Uint(_)) => true,
            (Token::Bool(_), ParamKind::Bool) => true,
            (Token::Bytes(_), ParamKind::Bytes) => true,
            (Token::FixedBytes(b), ParamKind::FixedBytes(n)) => b.len() <= *n,
            _ => false,
        };
        if !ok {
            proof {
                assert(!token_matches(models[i as int], function.inputs@[i as int]));
            }
            return Err(HarnessError::Encoding);
        }
        proof {
            assert(token_matches(models[i as int], function.inputs@[i as int]));
        }
        i = i + 1;
    }
    let mut data = abi_short_signature(function.name.as_str(), &function.inputs);
    let encoded = abi_encode(args);
    crate::types::extend_bytes(&mut data, &encoded);
    Ok(data)
}

/// The canonical deployer contract's `create` entry point: a 32-byte salt,
/// the 32-byte bytecode hash, and the constructor call data.
pub fn deployer_create_function() -> (r: FunctionDef)
    ensures
        r.name@ == "create"@,
        r.inputs@ == seq![ParamKind::FixedBytes(32), ParamKind::FixedBytes(32), ParamKind::Bytes],
{
    let mut inputs: Vec<ParamKind> = Vec::new();
    inputs.push(ParamKind::FixedBytes(32));
    inputs.push(ParamKind::FixedBytes(32));
    inputs.push(ParamKind::Bytes);
    proof {
        assert(inputs@ =~= seq![
            ParamKind::FixedBytes(32),
            ParamKind::FixedBytes(32),
            ParamKind::Bytes,
        ]);
    }
    FunctionDef { name: "create".to_owned(), inputs }
}

} // verus!
