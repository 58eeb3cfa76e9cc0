use charity_pbm::abi::{
    create_erc20_approve_data, create_erc20_balance_data, create_erc20_transfer_data,
    create_pbm_adduser_data, create_pbm_balance_data, create_pbm_funduser_data, create_pbm_pay_data,
    encode_call, find_function, AbiFunction, AbiParam, AbiToken, AbiType,
};
use charity_pbm::eth::{Address, Uint256};

fn hex(bytes: &[u8]) -> String {
    bytes.iter().map(|b| format!("{:02x}", b)).collect()
}

fn addr(byte: u8) -> Address {
    Address { bytes: [byte; 20] }
}

const ADDRESS_WORD_11: &str = "0000000000000000000000001111111111111111111111111111111111111111";
const AMOUNT_WORD_1234: &str = "00000000000000000000000000000000000000000000000000000000000004d2";

#[test]
fn transfer_call_data_is_standard_erc20() {
    let data = create_erc20_transfer_data(addr(0x11), Uint256::from_u64(1234)).unwrap();
    assert_eq!(hex(&data), format!("a9059cbb{}{}", ADDRESS_WORD_11, AMOUNT_WORD_1234));
}

#[test]
fn approve_call_data_is_standard_erc20() {
    let data = create_erc20_approve_data(addr(0x11), Uint256::from_u64(1234)).unwrap();
    assert_eq!(hex(&data), format!("095ea7b3{}{}", ADDRESS_WORD_11, AMOUNT_WORD_1234));
}

#[test]
fn pbm_pay_call_data() {
    let data = create_pbm_pay_data(addr(0x11), Uint256::from_u64(1234)).unwrap();
    assert_eq!(data.len(), 68);
    assert_eq!(hex(&data), format!("c4076876{}{}", ADDRESS_WORD_11, AMOUNT_WORD_1234));
}

#[test]
fn pbm_fund_user_call_data() {
    let data = create_pbm_funduser_data(addr(0x11), Uint256::from_u64(1234)).unwrap();
    assert_eq!(hex(&data), format!("4e23a144{}{}", ADDRESS_WORD_11, AMOUNT_WORD_1234));
}

#[test]
fn pbm_add_user_call_data() {
    let data = create_pbm_adduser_data(addr(0x11)).unwrap();
    assert_eq!(data.len(), 36);
    assert_eq!(hex(&data), format!("421b2d8b{}", ADDRESS_WORD_11));
}

#[test]
fn balance_calls_of_both_contracts_agree() {
    let pbm = create_pbm_balance_data(addr(0xab)).unwrap();
    let token = create_erc20_balance_data(addr(0xab)).unwrap();
    assert_eq!(pbm, token);
    assert_eq!(&hex(&pbm)[..8], "70a08231");
    assert_eq!(&hex(&pbm)[8..32], "000000000000000000000000");
}

#[test]
fn large_amount_fills_the_whole_word() {
    let amount = Uint256 { limbs: [1, 2, 3, 4] };
    let data = create_erc20_transfer_data(addr(0x11), amount).unwrap();
    assert_eq!(
        &hex(&data)[72..],
        "0000000000000004000000000000000300000000000000020000000000000001"
    );
}

#[test]
fn unknown_function_is_reported() {
    let abi = vec![AbiFunction {
        name: "pay".to_string(),
        inputs: vec![AbiParam { name: "receiver".to_string(), kind: AbiType::Address }],
    }];
    assert_eq!(find_function(&abi, "pay"), Some(0));
    assert_eq!(find_function(&abi, "payout"), None);
    let tokens = vec![AbiToken::Address(addr(1))];
    assert!(encode_call(&abi, "payout", &tokens).is_err());
    let data = encode_call(&abi, "pay", &tokens).unwrap();
    assert_eq!(data.len(), 36);
}
