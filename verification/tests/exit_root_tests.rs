use consensus_core::exit_root::{
    AbiError, GetLastGlobalExitRootCall, GetLastGlobalExitRootReturn, GlobalExitRootMapCall,
    GlobalExitRootMapReturn, IPolygonZkEVMGlobalExitRoot, IPolygonZkEVMGlobalExitRootCalls,
    UpdateExitRootCall,
};
use ethers::abi::{decode, encode, short_signature, Error, ParamType, Token};

fn word(seed: u8) -> [u8; 32] {
    let mut w = [0u8; 32];
    for (i, b) in w.iter_mut().enumerate() {
        *b = seed.wrapping_add(i as u8);
    }
    w
}

#[test]
fn selectors_are_the_hashes_of_the_signatures() {
    assert_eq!(GetLastGlobalExitRootCall::selector(), [0x3e, 0xd6, 0x91, 0xef]);
    assert_eq!(GlobalExitRootMapCall::selector(), [0x25, 0x7b, 0x36, 0x32]);
    assert_eq!(UpdateExitRootCall::selector(), [0x33, 0xd6, 0x24, 0x7d]);
    assert_eq!(
        GetLastGlobalExitRootCall::selector(),
        short_signature("getLastGlobalExitRoot", &[])
    );
    assert_eq!(
        GlobalExitRootMapCall::selector(),
        short_signature("globalExitRootMap", &[ParamType::FixedBytes(32)])
    );
    assert_eq!(
        UpdateExitRootCall::selector(),
        short_signature("updateExitRoot", &[ParamType::FixedBytes(32)])
    );
}

#[test]
fn call_data_is_selector_then_argument() {
    let contract = IPolygonZkEVMGlobalExitRoot::new([7u8; 20]);
    assert_eq!(contract.contract_address(), [7u8; 20]);

    let call = contract.get_last_global_exit_root();
    assert_eq!(call.to, [7u8; 20]);
    assert_eq!(call.data, vec![62, 214, 145, 239]);

    let num = word(3);
    let call = contract.global_exit_root_map(num);
    assert_eq!(call.to, [7u8; 20]);
    let mut expected = vec![37u8, 123, 54, 50];
    expected.extend_from_slice(&encode(&[Token::FixedBytes(num.to_vec())]));
    assert_eq!(call.data, expected);
    assert_eq!(call.data.len(), 36);
    assert_eq!(&call.data[4..], &num[..]);

    let root = word(200);
    let call = contract.update_exit_root(root);
    let mut expected = vec![51u8, 214, 36, 125];
    expected.extend_from_slice(&encode(&[Token::FixedBytes(root.to_vec())]));
    assert_eq!(call.data, expected);
}

#[test]
fn decoding_inverts_encoding() {
    let calls = [
        IPolygonZkEVMGlobalExitRootCalls::GetLastGlobalExitRoot(GetLastGlobalExitRootCall),
        IPolygonZkEVMGlobalExitRootCalls::GlobalExitRootMap(GlobalExitRootMapCall {
            global_exit_root_num: word(1),
        }),
        IPolygonZkEVMGlobalExitRootCalls::UpdateExitRoot(UpdateExitRootCall {
            new_rollup_exit_root: word(90),
        }),
    ];
    for call in calls {
        let data = call.encode();
        assert_eq!(IPolygonZkEVMGlobalExitRootCalls::decode(&data), Ok(call));
    }
}

#[test]
fn decoding_reads_a_prefix() {
    let mut data = UpdateExitRootCall { new_rollup_exit_root: word(5) }.encode();
    data.extend_from_slice(&[1, 2, 3]);
    assert_eq!(
        IPolygonZkEVMGlobalExitRootCalls::decode(&data),
        Ok(IPolygonZkEVMGlobalExitRootCalls::UpdateExitRoot(UpdateExitRootCall {
            new_rollup_exit_root: word(5)
        }))
    );
    assert_eq!(
        IPolygonZkEVMGlobalExitRootCalls::decode(&[62, 214, 145, 239, 9, 9]),
        Ok(IPolygonZkEVMGlobalExitRootCalls::GetLastGlobalExitRoot(GetLastGlobalExitRootCall))
    );
}

#[test]
fn decoding_rejects_what_is_no_call() {
    assert_eq!(IPolygonZkEVMGlobalExitRootCalls::decode(&[]), Err(AbiError::InvalidData));
    assert_eq!(
        IPolygonZkEVMGlobalExitRootCalls::decode(&[62, 214, 145]),
        Err(AbiError::InvalidData)
    );
    assert_eq!(
        IPolygonZkEVMGlobalExitRootCalls::decode(&[1, 2, 3, 4, 5]),
        Err(AbiError::InvalidData)
    );
    // the selector of a call with an argument, and too few bytes after it
    let mut short = vec![37u8, 123, 54, 50];
    short.extend_from_slice(&[0u8; 31]);
    assert_eq!(IPolygonZkEVMGlobalExitRootCalls::decode(&short), Err(AbiError::InvalidData));
    assert_eq!(GlobalExitRootMapCall::decode(&short), Err(AbiError::InvalidData));
    assert_eq!(GlobalExitRootMapCall::decode(&[51, 214, 36, 125]), Err(AbiError::WrongSelector));
    assert_eq!(GlobalExitRootMapCall::decode(&[37, 123, 54, 50]), Err(AbiError::EmptyData));
    assert_eq!(GlobalExitRootMapCall::decode(&[37, 123, 54, 50, 0]), Err(AbiError::InvalidData));
    assert_eq!(GlobalExitRootMapCall::decode(&[37, 123, 54]), Err(AbiError::WrongSelector));
    assert_eq!(UpdateExitRootCall::decode(&short), Err(AbiError::WrongSelector));
    assert_eq!(UpdateExitRootCall::decode(&[51, 214, 36, 125]), Err(AbiError::EmptyData));
    assert_eq!(UpdateExitRootCall::decode(&[51, 214, 36, 125, 9, 9]), Err(AbiError::InvalidData));
    assert_eq!(GetLastGlobalExitRootCall::decode(&short), Err(AbiError::WrongSelector));
    assert_eq!(
        GetLastGlobalExitRootCall::decode(&[62, 214, 145, 239]),
        Ok(GetLastGlobalExitRootCall)
    );
}

#[test]
fn return_data_is_the_first_word() {
    let mut data = word(17).to_vec();
    assert_eq!(GetLastGlobalExitRootReturn::decode(&data), Ok(GetLastGlobalExitRootReturn(word(17))));
    assert_eq!(GlobalExitRootMapReturn::decode(&data), Ok(GlobalExitRootMapReturn(word(17))));
    data.push(0);
    assert_eq!(GetLastGlobalExitRootReturn::decode(&data), Ok(GetLastGlobalExitRootReturn(word(17))));
    assert_eq!(GetLastGlobalExitRootReturn::decode(&data[..31]), Err(AbiError::InvalidData));
    assert_eq!(GlobalExitRootMapReturn::decode(&[]), Err(AbiError::InvalidData));
}

#[test]
fn argument_errors_follow_the_decoder_of_words() {
    let word_type = [ParamType::FixedBytes(32)];
    // nothing where a word is due
    assert!(matches!(decode(&word_type, &[]), Err(Error::InvalidName(_))));
    assert_eq!(GlobalExitRootMapCall::decode(&[37, 123, 54, 50]), Err(AbiError::EmptyData));
    // less than a word
    assert!(matches!(decode(&word_type, &[0u8; 31]), Err(Error::InvalidData)));
    let mut short = vec![37u8, 123, 54, 50];
    short.extend_from_slice(&[0u8; 31]);
    assert_eq!(GlobalExitRootMapCall::decode(&short), Err(AbiError::InvalidData));
    // a word and more
    assert_eq!(
        decode(&word_type, &[7u8; 40]).unwrap(),
        vec![Token::FixedBytes(vec![7u8; 32])]
    );
    let mut long = vec![37u8, 123, 54, 50];
    long.extend_from_slice(&[7u8; 40]);
    assert_eq!(
        GlobalExitRootMapCall::decode(&long),
        Ok(GlobalExitRootMapCall { global_exit_root_num: [7u8; 32] })
    );
    // no word is due after the selector of a call without arguments
    assert_eq!(decode(&[], &[1, 2, 3]).unwrap(), Vec::<Token>::new());
}
