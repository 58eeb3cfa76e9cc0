//! Contract call data for the PBM contract and the ERC-20 token: the
//! 4-byte function selector followed by one 32-byte word per argument.
use vstd::prelude::*;
use crate::eth::{Address, Uint256, be_value, be_word, lemma_be_word_value, lemma_value_bound};
use crate::text::str_eq;
use ethers_core::abi::{Function, Param, ParamType, StateMutability, Token};
use ethers_core::types::{H160, U256};

verus! {

/// The argument types that the service's contract functions take.
pub enum AbiType {
    Address,
    Uint(usize),
}

/// An argument value.
pub enum AbiToken {
    Address(Address),
    Uint(Uint256),
}

/// A named function argument, as the contract's JSON ABI lists it.
pub struct AbiParam {
    pub name: String,
    pub kind: AbiType,
}

/// One function of a contract's ABI: its name and its arguments.
pub struct AbiFunction {
    pub name: String,
    pub inputs: Vec<AbiParam>,
}

/// Errors in building call data.
#[derive(Debug)]
pub enum AbiError {
    /// The ABI has no function of the requested name.
    FunctionNotFound,
}

/// The decimal digits of `n`.
pub open spec fn decimal_text(n: nat) -> Seq<char>
    decreases n,
{
    if n < 10 {
        seq![((n + 48) as u8) as char]
    } else {
        decimal_text(n / 10).push(((n % 10 + 48) as u8) as char)
    }
}

/// The canonical name of an argument type in a function signature.
pub open spec fn abi_type_text(k: AbiType) -> Seq<char> {
    match k {
        AbiType::Address => seq!['a', 'd', 'd', 'r', 'e', 's', 's'],
        AbiType::Uint(n) => seq!['u', 'i', 'n', 't'] + decimal_text(n as nat),
    }
}

/// The argument type names joined by commas.
pub open spec fn type_list(kinds: Seq<AbiType>) -> Seq<char>
    decreases kinds.len(),
{
    if kinds.len() == 0 {
        Seq::empty()
    } else if kinds.len() == 1 {
        abi_type_text(kinds[0])
    } else {
        type_list(kinds.drop_last()) + seq![','] + abi_type_text(kinds.last())
    }
}

/// The function signature `name(type,type,...)` whose hash gives the selector.
pub open spec fn signature_text(name: Seq<char>, kinds: Seq<AbiType>) -> Seq<char> {
    name + seq!['('] + type_list(kinds) + seq![')']
}

/// Name for the function selector that ethabi's `short_signature` computes
/// inside `Function::encode_input`: the first four bytes of the Keccak-256
/// hash of the UTF-8 encoding of the signature text.
pub uninterp spec fn abi_selector(signature: Seq<char>) -> Seq<u8>;

/// The word of an address argument: twelve zero bytes, then the address.
pub open spec fn address_word(a: Address) -> Seq<u8> {
    Seq::new(12, |i: int| 0u8) + a.bytes@
}

/// The 32-byte word of one argument.
pub open spec fn token_word(t: AbiToken) -> Seq<u8> {
    match t {
        AbiToken::Address(a) => address_word(a),
        AbiToken::Uint(u) => be_word(u.value()),
    }
}

/// The argument words, in order.
pub open spec fn encode_tokens(tokens: Seq<AbiToken>) -> Seq<u8>
    decreases tokens.len(),
{
    if tokens.len() == 0 {
        Seq::empty()
    } else {
        encode_tokens(tokens.drop_last()) + token_word(tokens.last())
    }
}

/// Whether an argument value fits an argument type.
pub open spec fn token_fits(t: AbiToken, k: AbiType) -> bool {
    match (t, k) {
        (AbiToken::Address(_), AbiType::Address) => true,
        (AbiToken::Uint(_), AbiType::Uint(_)) => true,
        _ => false,
    }
}

/// Whether the argument values fit the argument types one for one.
pub open spec fn tokens_fit(tokens: Seq<AbiToken>, kinds: Seq<AbiType>) -> bool {
    &&& tokens.len() == kinds.len()
    &&& forall|i: int| 0 <= i < tokens.len() ==> token_fits(#[trigger] tokens[i], kinds[i])
}

/// The argument types of a function.
pub open spec fn input_kinds(f: AbiFunction) -> Seq<AbiType> {
    f.inputs@.map_values(|p: AbiParam| p.kind)
}

/// The call data of a function call: selector, then the argument words.
pub open spec fn call_data(f: AbiFunction, tokens: Seq<AbiToken>) -> Seq<u8> {
    abi_selector(signature_text(f.name@, input_kinds(f))) + encode_tokens(tokens)
}

/// Calls ethabi's `Function::encode_input` (via `ethers_core::abi`) on a
/// function with the given name and argument types. It fails exactly when the
/// values do not fit the types; otherwise it returns the selector followed
/// by the words of the arguments: an address is left-padded with zeros to 32
/// bytes, an unsigned number is written big-endian in 32 bytes.
#[verifier::external_body]
fn encode_input(name: &str, kinds: &[AbiType], tokens: &[AbiToken]) -> (res: Option<Vec<u8>>)
    ensures
        res is Some <==> tokens_fit(tokens@, kinds@),
        res matches Some(v) ==> v@ == abi_selector(signature_text(name@, kinds@)) + encode_tokens(tokens@),
        res matches Some(v) ==> v@.len() == 4 + 32 * tokens@.len(),
{
    let inputs = kinds.iter().map(|k| Param { name: String::new(), kind: match k {
        AbiType::Address => ParamType::Address, AbiType::Uint(n) => ParamType::Uint(*n) },
        internal_type: None }).collect();
    #[allow(deprecated)]
    let f = Function { name: name.to_string(), inputs, outputs: vec![], constant: None,
        state_mutability: StateMutability::NonPayable };
    let t: Vec<Token> = tokens.iter().map(|t| match t {
        AbiToken::Address(a) => Token::Address(H160(a.bytes)),
        AbiToken::Uint(u) => Token::Uint(U256(u.limbs)) }).collect();
    f.encode_input(&t).ok()
}

impl AbiType {
    fn copy(&self) -> (r: AbiType)
        ensures
            r == *self,
    {
        match self {
            AbiType::Address => AbiType::Address,
            AbiType::Uint(n) => AbiType::Uint(*n),
        }
    }
}

/// The position of the first function named `name`.
pub fn find_function(abi: &Vec<AbiFunction>, name: &str) -> (res: Option<usize>)
    ensures
        res matches Some(i) ==> i < abi@.len() && abi@[i as int].name@ == name@ && forall|j: int|
            0 <= j < i ==> abi@[j].name@ != name@,
        res is None ==> forall|j: int| 0 <= j < abi@.len() ==> abi@[j].name@ != name@,
{
    let mut i: usize = 0;
    while i < abi.len()
        invariant
            i <= abi@.len(),
            forall|j: int| 0 <= j < i ==> abi@[j].name@ != name@,
        decreases abi@.len() - i,
    {
        if str_eq(abi[i].name.as_str(), name) {
            return Some(i);
        }
        i = i + 1;
    }
    None
}

/// Encodes a call of the function named `name` of `abi` with `tokens`.
/// Fails when `abi` has no such function; the caller passes values that fit
/// the first such function's arguments.
pub fn encode_call(abi: &Vec<AbiFunction>, name: &str, tokens: &Vec<AbiToken>) -> (res: Result<
    Vec<u8>,
    AbiError,
>)
    requires
        forall|j: int|
            0 <= j < abi@.len() && abi@[j].name@ == name@ && (forall|k: int|
                0 <= k < j ==> abi@[k].name@ != name@) ==> tokens_fit(tokens@, input_kinds(abi@[j])),
    ensures
        res is Err <==> forall|j: int| 0 <= j < abi@.len() ==> abi@[j].name@ != name@,
        res matches Ok(v) ==> exists|j: int|
            0 <= j < abi@.len() && abi@[j].name@ == name@ && (forall|k: int|
                0 <= k < j ==> abi@[k].name@ != name@) && v@ == call_data(abi@[j], tokens@),
        res matches Ok(v) ==> v@.len() == 4 + 32 * tokens@.len(),
{
    match find_function(abi, name) {
        None => Err(AbiError::FunctionNotFound),
        Some(i) => {
            let f = &abi[i];
            let mut kinds: Vec<AbiType> = Vec::new();
            let mut k: usize = 0;
            while k < f.inputs.len()
                invariant
                    k <= f.inputs@.len(),
                    kinds@ == input_kinds(*f).take(k as int),
                decreases f.inputs@.len() - k,
            {
                kinds.push(f.inputs[k].kind.copy());
                proof {
                    assert(input_kinds(*f).take(k + 1) =~= input_kinds(*f).take(k as int).push(
                        f.inputs@[k as int].kind,
                    ));
                }
                k = k + 1;
            }
            proof {
                assert(input_kinds(*f).take(f.inputs@.len() as int) =~= input_kinds(*f));
            }
            let encoded = encode_input(f.name.as_str(), kinds.as_slice(), tokens.as_slice());
            Ok(encoded.unwrap())
        },
    }
}

/// The call data of `name(address,uint256)` with an address and an amount.
pub open spec fn address_amount_call(signature: Seq<char>, a: Address, amount: Uint256) -> Seq<u8> {
    abi_selector(signature) + address_word(a) + be_word(amount.value())
}

/// The call data of `name(address)` with an address.
pub open spec fn address_call(signature: Seq<char>, a: Address) -> Seq<u8> {
    abi_selector(signature) + address_word(a)
}

/// An ABI holding the one function `fname(address a_name, uint256 b_name)`.
fn address_amount_abi(fname: &str, a_name: &str, b_name: &str) -> (abi: Vec<AbiFunction>)
    ensures
        abi@.len() == 1,
        abi@[0].name@ == fname@,
        input_kinds(abi@[0]) == seq![AbiType::Address, AbiType::Uint(256)],
{
    let mut inputs: Vec<AbiParam> = Vec::new();
    inputs.push(AbiParam { name: String::from_str(a_name), kind: AbiType::Address });
    inputs.push(AbiParam { name: String::from_str(b_name), kind: AbiType::Uint(256) });
    let mut abi: Vec<AbiFunction> = Vec::new();
    abi.push(AbiFunction { name: String::from_str(fname), inputs });
    proof {
        assert(input_kinds(abi@[0]) =~= seq![AbiType::Address, AbiType::Uint(256)]);
    }
    abi
}

/// An ABI holding the one function `fname(address a_name)`.
fn address_abi(fname: &str, a_name: &str) -> (abi: Vec<AbiFunction>)
    ensures
        abi@.len() == 1,
        abi@[0].name@ == fname@,
        input_kinds(abi@[0]) == seq![AbiType::Address],
{
    let mut inputs: Vec<AbiParam> = Vec::new();
    inputs.push(AbiParam { name: String::from_str(a_name), kind: AbiType::Address });
    let mut abi: Vec<AbiFunction> = Vec::new();
    abi.push(AbiFunction { name: String::from_str(fname), inputs });
    proof {
        assert(input_kinds(abi@[0]) =~= seq![AbiType::Address]);
    }
    abi
}

proof fn lemma_uint256_text()
    ensures
        abi_type_text(AbiType::Uint(256)) == seq!['u', 'i', 'n', 't', '2', '5', '6'],
{
    reveal_with_fuel(decimal_text, 3);
    assert(decimal_text(256) =~= seq!['2', '5', '6']);
    assert(seq!['u', 'i', 'n', 't'] + seq!['2', '5', '6'] =~= seq!['u', 'i', 'n', 't', '2', '5', '6']);
}

proof fn lemma_address_amount_signature(fname: Seq<char>)
    ensures
        signature_text(fname, seq![AbiType::Address, AbiType::Uint(256)]) == fname + seq![
            '(', 'a', 'd', 'd', 'r', 'e', 's', 's', ',', 'u', 'i', 'n', 't', '2', '5', '6', ')'],
{
    lemma_uint256_text();
    let kinds = seq![AbiType::Address, AbiType::Uint(256)];
    assert(kinds.drop_last() =~= seq![AbiType::Address]);
    assert(type_list(seq![AbiType::Address]) == abi_type_text(AbiType::Address));
    assert(kinds.last() == AbiType::Uint(256));
    assert(type_list(kinds) =~= seq!['a', 'd', 'd', 'r', 'e', 's', 's', ',', 'u', 'i', 'n', 't', '2', '5', '6']);
    assert(signature_text(fname, kinds) =~= fname + seq![
        '(', 'a', 'd', 'd', 'r', 'e', 's', 's', ',', 'u', 'i', 'n', 't', '2', '5', '6', ')']);
}

proof fn lemma_address_signature(fname: Seq<char>)
    ensures
        signature_text(fname, seq![AbiType::Address]) == fname + seq![
            '(', 'a', 'd', 'd', 'r', 'e', 's', 's', ')'],
{
    assert(signature_text(fname, seq![AbiType::Address]) =~= fname + seq![
        '(', 'a', 'd', 'd', 'r', 'e', 's', 's', ')']);
}

proof fn lemma_encode_two(t0: AbiToken, t1: AbiToken)
    ensures
        encode_tokens(seq![t0, t1]) == token_word(t0) + token_word(t1),
{
    let ts = seq![t0, t1];
    assert(ts.drop_last() =~= seq![t0]);
    assert(ts.last() == t1);
    lemma_encode_one(t0);
}

proof fn lemma_encode_one(t0: AbiToken)
    ensures
        encode_tokens(seq![t0]) == token_word(t0),
{
    assert(seq![t0].drop_last() =~= Seq::<AbiToken>::empty());
    assert(seq![t0].last() == t0);
    assert(encode_tokens(Seq::<AbiToken>::empty()) == Seq::<u8>::empty());
    assert(Seq::<u8>::empty() + token_word(t0) =~= token_word(t0));
}

/// Encodes `fname(address,uint256)` with the given values through a one-function ABI.
fn encode_address_amount(
    fname: &str,
    a_name: &str,
    b_name: &str,
    a: Address,
    amount: Uint256,
) -> (res: Result<Vec<u8>, AbiError>)
    ensures
        res matches Ok(v) && v@ == address_amount_call(
            fname@ + seq!['(', 'a', 'd', 'd', 'r', 'e', 's', 's', ',', 'u', 'i', 'n', 't', '2', '5', '6', ')'],
            a,
            amount,
        ) && v@.len() == 68,
{
    let abi = address_amount_abi(fname, a_name, b_name);
    let mut tokens: Vec<AbiToken> = Vec::new();
    tokens.push(AbiToken::Address(a));
    tokens.push(AbiToken::Uint(amount));
    let ghost ts = tokens@;
    proof {
        assert(ts =~= seq![AbiToken::Address(a), AbiToken::Uint(amount)]);
        assert(tokens_fit(ts, input_kinds(abi@[0])));
        lemma_encode_two(AbiToken::Address(a), AbiToken::Uint(amount));
        lemma_address_amount_signature(fname@);
    }
    encode_call(&abi, fname, &tokens)
}

/// Encodes `fname(address)` with the given address through a one-function ABI.
fn encode_address(fname: &str, a_name: &str, a: Address) -> (res: Result<Vec<u8>, AbiError>)
    ensures
        res matches Ok(v) && v@ == address_call(
            fname@ + seq!['(', 'a', 'd', 'd', 'r', 'e', 's', 's', ')'],
            a,
        ) && v@.len() == 36,
{
    let abi = address_abi(fname, a_name);
    let mut tokens: Vec<AbiToken> = Vec::new();
    tokens.push(AbiToken::Address(a));
    let ghost ts = tokens@;
    proof {
        assert(ts =~= seq![AbiToken::Address(a)]);
        assert(tokens_fit(ts, input_kinds(abi@[0])));
        lemma_encode_one(AbiToken::Address(a));
        lemma_address_signature(fname@);
    }
    encode_call(&abi, fname, &tokens)
}

/// Call data for `PBM.pay(receiver, amount)`: the payer moves `amount`
/// (in cents) of its PBM balance to the merchant `receiver`.
pub fn create_pbm_pay_data(receiver_address: Address, amount: Uint256) -> (res: Result<Vec<u8>, AbiError>)
    ensures
        res matches Ok(v) && v@ == address_amount_call("pay(address,uint256)"@, receiver_address, amount)
            && v@.len() == 68,
{
    proof {
        reveal_strlit("pay");
        reveal_strlit("pay(address,uint256)");
        assert("pay"@ + seq!['(', 'a', 'd', 'd', 'r', 'e', 's', 's', ',', 'u', 'i', 'n', 't', '2', '5', '6', ')'] =~= "pay(address,uint256)"@);
    }
    encode_address_amount("pay", "receiver", "amount", receiver_address, amount)
}

/// Call data for `PBM.fundUser(user, amount)`: the owner credits `amount`
/// (in cents) of approved tokens to `user`.
pub fn create_pbm_funduser_data(user_address: Address, amount: Uint256) -> (res: Result<Vec<u8>, AbiError>)
    ensures
        res matches Ok(v) && v@ == address_amount_call("fundUser(address,uint256)"@, user_address, amount)
            && v@.len() == 68,
{
    proof {
        reveal_strlit("fundUser");
        reveal_strlit("fundUser(address,uint256)");
        assert("fundUser"@ + seq!['(', 'a', 'd', 'd', 'r', 'e', 's', 's', ',', 'u', 'i', 'n', 't', '2', '5', '6', ')'] =~= "fundUser(address,uint256)"@);
    }
    encode_address_amount("fundUser", "user", "amount", user_address, amount)
}

/// Call data for `PBM.addUser(user)`: registers `user` with the PBM contract.
pub fn create_pbm_adduser_data(user_address: Address) -> (res: Result<Vec<u8>, AbiError>)
    ensures
        res matches Ok(v) && v@ == address_call("addUser(address)"@, user_address)
            && v@.len() == 36,
{
    proof {
        reveal_strlit("addUser");
        reveal_strlit("addUser(address)");
        assert("addUser"@ + seq!['(', 'a', 'd', 'd', 'r', 'e', 's', 's', ')'] =~= "addUser(address)"@);
    }
    encode_address("addUser", "user", user_address)
}

/// Call data for `ERC20.approve(spender, amount)`.
pub fn create_erc20_approve_data(user_address: Address, amount: Uint256) -> (res: Result<Vec<u8>, AbiError>)
    ensures
        res matches Ok(v) && v@ == address_amount_call("approve(address,uint256)"@, user_address, amount)
            && v@.len() == 68,
{
    proof {
        reveal_strlit("approve");
        reveal_strlit("approve(address,uint256)");
        assert("approve"@ + seq!['(', 'a', 'd', 'd', 'r', 'e', 's', 's', ',', 'u', 'i', 'n', 't', '2', '5', '6', ')'] =~= "approve(address,uint256)"@);
    }
    encode_address_amount("approve", "user", "amount", user_address, amount)
}

/// Call data for `ERC20.transfer(to, amount)`.
pub fn create_erc20_transfer_data(user_address: Address, amount: Uint256) -> (res: Result<Vec<u8>, AbiError>)
    ensures
        res matches Ok(v) && v@ == address_amount_call("transfer(address,uint256)"@, user_address, amount)
            && v@.len() == 68,
{
    proof {
        reveal_strlit("transfer");
        reveal_strlit("transfer(address,uint256)");
        assert("transfer"@ + seq!['(', 'a', 'd', 'd', 'r', 'e', 's', 's', ',', 'u', 'i', 'n', 't', '2', '5', '6', ')'] =~= "transfer(address,uint256)"@);
    }
    encode_address_amount("transfer", "user", "amount", user_address, amount)
}

/// Call data for `PBM.balanceOf(user)`.
pub fn create_pbm_balance_data(user_address: Address) -> (res: Result<Vec<u8>, AbiError>)
    ensures
        res matches Ok(v) && v@ == address_call("balanceOf(address)"@, user_address)
            && v@.len() == 36,
{
    proof {
        reveal_strlit("balanceOf");
        reveal_strlit("balanceOf(address)");
        assert("balanceOf"@ + seq!['(', 'a', 'd', 'd', 'r', 'e', 's', 's', ')'] =~= "balanceOf(address)"@);
    }
    encode_address("balanceOf", "user", user_address)
}

/// Call data for `ERC20.balanceOf(owner)`.
pub fn create_erc20_balance_data(user_address: Address) -> (res: Result<Vec<u8>, AbiError>)
    ensures
        res matches Ok(v) && v@ == address_call("balanceOf(address)"@, user_address)
            && v@.len() == 36,
{
    proof {
        reveal_strlit("balanceOf");
        reveal_strlit("balanceOf(address)");
        assert("balanceOf"@ + seq!['(', 'a', 'd', 'd', 'r', 'e', 's', 's', ')'] =~= "balanceOf(address)"@);
    }
    encode_address("balanceOf", "user", user_address)
}

/// The arguments read back from call data: the last two words of a
/// `name(address,uint256)` call are the address, left-padded with zeros,
/// and the amount, which reads back as the number given.
pub proof fn lemma_address_amount_call_arguments(signature: Seq<char>, a: Address, amount: Uint256)
    ensures
        ({
            let d = address_amount_call(signature, a, amount);
            &&& d.len() >= 64
            &&& d.subrange(d.len() - 64, d.len() - 52) == Seq::new(12, |i: int| 0u8)
            &&& d.subrange(d.len() - 52, d.len() - 32) == a.bytes@
            &&& be_value(d.subrange(d.len() - 32, d.len() as int)) == amount.value()
        }),
{
    lemma_value_bound(amount);
    lemma_be_word_value(amount.value());
    let sel = abi_selector(signature);
    let d = address_amount_call(signature, a, amount);
    let w = be_word(amount.value());
    assert(d.len() == sel.len() + 64);
    assert(d.subrange(d.len() - 64, d.len() - 52) =~= Seq::new(12, |i: int| 0u8));
    assert(d.subrange(d.len() - 52, d.len() - 32) =~= a.bytes@);
    assert(d.subrange(d.len() - 32, d.len() as int) =~= w);
}

/// The address read back from call data: the last word of a
/// `name(address)` call is the address, left-padded with zeros.
pub proof fn lemma_address_call_argument(signature: Seq<char>, a: Address)
    ensures
        ({
            let d = address_call(signature, a);
            &&& d.len() >= 32
            &&& d.subrange(d.len() - 32, d.len() - 20) == Seq::new(12, |i: int| 0u8)
            &&& d.subrange(d.len() - 20, d.len() as int) == a.bytes@
        }),
{
    let d = address_call(signature, a);
    assert(d.subrange(d.len() - 32, d.len() - 20) =~= Seq::new(12, |i: int| 0u8));
    assert(d.subrange(d.len() - 20, d.len() as int) =~= a.bytes@);
}

} // verus!
