//! Calls to the global exit root contract of a rollup bridge, as call data.
//!
//! A call is framed as four selector bytes followed by one 32-byte word for
//! each argument. Decoding reads a prefix of the data: bytes after the last
//! argument are ignored.

use vstd::prelude::*;

verus! {

/// The selector of `getLastGlobalExitRoot()`.
pub open spec fn selector_get_last_global_exit_root() -> Seq<u8> {
    seq![62u8, 214u8, 145u8, 239u8]
}

/// The selector of `globalExitRootMap(bytes32)`.
pub open spec fn selector_global_exit_root_map() -> Seq<u8> {
    seq![37u8, 123u8, 54u8, 50u8]
}

/// The selector of `updateExitRoot(bytes32)`.
pub open spec fn selector_update_exit_root() -> Seq<u8> {
    seq![51u8, 214u8, 36u8, 125u8]
}

/// Why call data or return data could not be decoded.
#[derive(Clone, Copy, Debug, PartialEq, Eq, Structural)]
pub enum AbiError {
    /// The data does not start with the selector of the call.
    WrongSelector,
    /// Nothing follows the selector where an argument is due.
    EmptyData,
    /// The data is no call of the contract, or is too short.
    InvalidData,
}

/// Why call data that starts with the selector of a call with one argument
/// cannot be decoded, if it cannot: nothing follows the selector, or less
/// than a word does.
pub open spec fn argument_failure(data: Seq<u8>) -> Option<AbiError> {
    if data.len() <= 4 {
        Some(AbiError::EmptyData)
    } else if data.len() < 36 {
        Some(AbiError::InvalidData)
    } else {
        None
    }
}

/// Custom Error type `OnlyAllowedContracts` with signature `OnlyAllowedContracts()`
#[derive(Clone, Copy, Debug, PartialEq, Eq, Hash)]
pub struct OnlyAllowedContracts;

/// Container type for all input parameters for the `getLastGlobalExitRoot` function
#[derive(Clone, Copy, Debug, PartialEq, Eq, Hash)]
pub struct GetLastGlobalExitRootCall;

/// Container type for all input parameters for the `globalExitRootMap` function
#[derive(Clone, Copy, Debug, PartialEq, Eq, Hash)]
pub struct GlobalExitRootMapCall {
    pub global_exit_root_num: [u8; 32],
}

/// Container type for all input parameters for the `updateExitRoot` function
#[derive(Clone, Copy, Debug, PartialEq, Eq, Hash)]
pub struct UpdateExitRootCall {
    pub new_rollup_exit_root: [u8; 32],
}

/// Container type for all of the contract's call
#[derive(Clone, Copy, Debug, PartialEq, Eq, Hash)]
pub enum IPolygonZkEVMGlobalExitRootCalls {
    GetLastGlobalExitRoot(GetLastGlobalExitRootCall),
    GlobalExitRootMap(GlobalExitRootMapCall),
    UpdateExitRoot(UpdateExitRootCall),
}

/// Container type for all return fields from the `getLastGlobalExitRoot` function
#[derive(Clone, Copy, Debug, PartialEq, Eq, Hash)]
pub struct GetLastGlobalExitRootReturn(pub [u8; 32]);

/// Container type for all return fields from the `globalExitRootMap`
/// function: a 256-bit number as a big-endian word.
#[derive(Clone, Copy, Debug, PartialEq, Eq, Hash)]
pub struct GlobalExitRootMapReturn(pub [u8; 32]);

/// A call that is ready to be sent: the contract's address and the call data.
#[derive(Clone, Debug, PartialEq, Eq)]
pub struct ContractCall {
    pub to: [u8; 20],
    pub data: Vec<u8>,
}

/// The global exit root contract at an address.
#[derive(Clone, Copy, Debug, PartialEq, Eq)]
pub struct IPolygonZkEVMGlobalExitRoot {
    address: [u8; 20],
}

/// Whether `data` starts with the four bytes of `selector`.
pub open spec fn has_selector(data: Seq<u8>, selector: Seq<u8>) -> bool {
    data.len() >= 4 && data.subrange(0, 4) == selector
}

/// Whether `r` is what decoding `data` as a call of the contract gives. The
/// three calls are tried in the order of their declaration.
pub open spec fn decodes_to(
    data: Seq<u8>,
    r: Result<IPolygonZkEVMGlobalExitRootCalls, AbiError>,
) -> bool {
    if has_selector(data, selector_get_last_global_exit_root()) {
        r == Ok::<IPolygonZkEVMGlobalExitRootCalls, AbiError>(
            IPolygonZkEVMGlobalExitRootCalls::GetLastGlobalExitRoot(GetLastGlobalExitRootCall),
        )
    } else if has_selector(data, selector_global_exit_root_map()) && data.len() >= 36 {
        match r {
            Ok(IPolygonZkEVMGlobalExitRootCalls::GlobalExitRootMap(call)) =>
                call.global_exit_root_num@ == data.subrange(4, 36),
            _ => false,
        }
    } else if has_selector(data, selector_update_exit_root()) && data.len() >= 36 {
        match r {
            Ok(IPolygonZkEVMGlobalExitRootCalls::UpdateExitRoot(call)) =>
                call.new_rollup_exit_root@ == data.subrange(4, 36),
            _ => false,
        }
    } else {
        r == Err::<IPolygonZkEVMGlobalExitRootCalls, AbiError>(AbiError::InvalidData)
    }
}

/// Whether `data` starts with the four bytes of `selector`.
fn starts_with(data: &[u8], selector: &[u8; 4]) -> (r: bool)
    ensures
        r == has_selector(data@, selector@),
{
    if data.len() < 4 {
        return false;
    }
    let mut i: usize = 0;
    while i < 4
        invariant
            data@.len() >= 4,
            i <= 4,
            forall|j: int| 0 <= j < i ==> data@[j] == selector@[j],
        decreases 4 - i,
    {
        if data[i] != selector[i] {
            return false;
        }
        i = i + 1;
    }
    proof {
        assert(data@.subrange(0, 4) =~= selector@);
    }
    true
}

/// The 32-byte word of `data` that starts at `offset`.
fn word_at(data: &[u8], offset: usize) -> (word: [u8; 32])
    requires
        offset + 32 <= data@.len(),
    ensures
        word@ == data@.subrange(offset as int, offset + 32),
{
    let len: usize = data.len();
    let mut word: [u8; 32] = [0u8; 32];
    let mut i: usize = 0;
    while i < 32
        invariant
            len == data@.len(),
            offset + 32 <= len,
            i <= 32,
            forall|j: int| 0 <= j < i ==> word@[j] == data@[offset + j],
        decreases 32 - i,
    {
        word[i] = data[offset + i];
        i = i + 1;
    }
    word
}

/// Call data: a selector followed by one word.
fn frame(selector: &[u8; 4], word: &[u8; 32]) -> (data: Vec<u8>)
    ensures
        data@ == selector@ + word@,
{
    let mut data: Vec<u8> = Vec::new();
    let mut i: usize = 0;
    while i < 4
        invariant
            i <= 4,
            data@ == selector@.subrange(0, i as int),
        decreases 4 - i,
    {
        data.push(selector[i]);
        i = i + 1;
    }
    let mut k: usize = 0;
    while k < 32
        invariant
            k <= 32,
            data@ == selector@ + word@.subrange(0, k as int),
        decreases 32 - k,
    {
        data.push(word[k]);
        k = k + 1;
    }
    data
}

impl GetLastGlobalExitRootCall {
    /// The selector of the call.
    pub fn selector() -> (s: [u8; 4])
        ensures
            s@ == selector_get_last_global_exit_root(),
    {
        let s: [u8; 4] = [62, 214, 145, 239];
        s
    }

    /// The call data: the selector alone.
    pub fn encode(self) -> (data: Vec<u8>)
        ensures
            data@ == selector_get_last_global_exit_root(),
    {
        let s: [u8; 4] = Self::selector();
        let mut data: Vec<u8> = Vec::new();
        data.push(s[0]);
        data.push(s[1]);
        data.push(s[2]);
        data.push(s[3]);
        data
    }

    /// Decodes call data that starts with the selector of the call.
    pub fn decode(data: &[u8]) -> (r: Result<GetLastGlobalExitRootCall, AbiError>)
        ensures
            r == if has_selector(data@, selector_get_last_global_exit_root()) {
                Ok::<GetLastGlobalExitRootCall, AbiError>(GetLastGlobalExitRootCall)
            } else {
                Err::<GetLastGlobalExitRootCall, AbiError>(AbiError::WrongSelector)
            },
    {
        let s: [u8; 4] = Self::selector();
        if starts_with(data, &s) {
            Ok(GetLastGlobalExitRootCall)
        } else {
            Err(AbiError::WrongSelector)
        }
    }
}

impl GlobalExitRootMapCall {
    /// The selector of the call.
    pub fn selector() -> (s: [u8; 4])
        ensures
            s@ == selector_global_exit_root_map(),
    {
        let s: [u8; 4] = [37, 123, 54, 50];
        s
    }

    /// The call data: the selector and the number of the exit root.
    pub fn encode(self) -> (data: Vec<u8>)
        ensures
            data@ == selector_global_exit_root_map() + self.global_exit_root_num@,
    {
        let s: [u8; 4] = Self::selector();
        frame(&s, &self.global_exit_root_num)
    }

    /// Decodes call data: the selector, then at least one word.
    pub fn decode(data: &[u8]) -> (r: Result<GlobalExitRootMapCall, AbiError>)
        ensures
            match r {
                Ok(call) => has_selector(data@, selector_global_exit_root_map()) && data@.len()
                    >= 36 && call.global_exit_root_num@ == data@.subrange(4, 36),
                Err(e) => if has_selector(data@, selector_global_exit_root_map()) {
                    argument_failure(data@) == Some(e)
                } else {
                    e == AbiError::WrongSelector
                },
            },
    {
        let s: [u8; 4] = Self::selector();
        if !starts_with(data, &s) {
            Err(AbiError::WrongSelector)
        } else if data.len() <= 4 {
            Err(AbiError::EmptyData)
        } else if data.len() < 36 {
            Err(AbiError::InvalidData)
        } else {
            Ok(GlobalExitRootMapCall { global_exit_root_num: word_at(data, 4) })
        }
    }
}

impl UpdateExitRootCall {
    /// The selector of the call.
    pub fn selector() -> (s: [u8; 4])
        ensures
            s@ == selector_update_exit_root(),
    {
        let s: [u8; 4] = [51, 214, 36, 125];
        s
    }

    /// The call data: the selector and the new exit root.
    pub fn encode(self) -> (data: Vec<u8>)
        ensures
            data@ == selector_update_exit_root() + self.new_rollup_exit_root@,
    {
        let s: [u8; 4] = Self::selector();
        frame(&s, &self.new_rollup_exit_root)
    }

    /// Decodes call data: the selector, then at least one word.
    pub fn decode(data: &[u8]) -> (r: Result<UpdateExitRootCall, AbiError>)
        ensures
            match r {
                Ok(call) => has_selector(data@, selector_update_exit_root()) && data@.len() >= 36
                    && call.new_rollup_exit_root@ == data@.subrange(4, 36),
                Err(e) => if has_selector(data@, selector_update_exit_root()) {
                    argument_failure(data@) == Some(e)
                } else {
                    e == AbiError::WrongSelector
                },
            },
    {
        let s: [u8; 4] = Self::selector();
        if !starts_with(data, &s) {
            Err(AbiError::WrongSelector)
        } else if data.len() <= 4 {
            Err(AbiError::EmptyData)
        } else if data.len() < 36 {
            Err(AbiError::InvalidData)
        } else {
            Ok(UpdateExitRootCall { new_rollup_exit_root: word_at(data, 4) })
        }
    }
}

impl IPolygonZkEVMGlobalExitRootCalls {
    /// The call data of a call: its selector, then its argument.
    pub open spec fn encoding(self) -> Seq<u8> {
        match self {
            IPolygonZkEVMGlobalExitRootCalls::GetLastGlobalExitRoot(_) =>
                selector_get_last_global_exit_root(),
            IPolygonZkEVMGlobalExitRootCalls::GlobalExitRootMap(call) =>
                selector_global_exit_root_map() + call.global_exit_root_num@,
            IPolygonZkEVMGlobalExitRootCalls::UpdateExitRoot(call) => selector_update_exit_root()
                + call.new_rollup_exit_root@,
        }
    }

    /// Decodes call data as the first call of the contract that it fits.
    pub fn decode(data: &[u8]) -> (r: Result<IPolygonZkEVMGlobalExitRootCalls, AbiError>)
        ensures
            decodes_to(data@, r),
    {
        if let Ok(decoded) = GetLastGlobalExitRootCall::decode(data) {
            return Ok(IPolygonZkEVMGlobalExitRootCalls::GetLastGlobalExitRoot(decoded));
        }
        if let Ok(decoded) = GlobalExitRootMapCall::decode(data) {
            return Ok(IPolygonZkEVMGlobalExitRootCalls::GlobalExitRootMap(decoded));
        }
        if let Ok(decoded) = UpdateExitRootCall::decode(data) {
            return Ok(IPolygonZkEVMGlobalExitRootCalls::UpdateExitRoot(decoded));
        }
        Err(AbiError::InvalidData)
    }

    /// Encodes a call as call data.
    pub fn encode(self) -> (data: Vec<u8>)
        ensures
            data@ == self.encoding(),
    {
        match self {
            IPolygonZkEVMGlobalExitRootCalls::GetLastGlobalExitRoot(element) => element.encode(),
            IPolygonZkEVMGlobalExitRootCalls::GlobalExitRootMap(element) => element.encode(),
            IPolygonZkEVMGlobalExitRootCalls::UpdateExitRoot(element) => element.encode(),
        }
    }

    /// Law: decoding the call data of a call gives the call back.
    pub proof fn law_decode_inverts_encode(self)
        ensures
            decodes_to(self.encoding(), Ok(self)),
    {
        let data = self.encoding();
        match self {
            IPolygonZkEVMGlobalExitRootCalls::GetLastGlobalExitRoot(call) => {
                assert(data.subrange(0, 4) =~= selector_get_last_global_exit_root());
            },
            IPolygonZkEVMGlobalExitRootCalls::GlobalExitRootMap(call) => {
                assert(data.subrange(0, 4) =~= selector_global_exit_root_map());
                assert(data.subrange(4, 36) =~= call.global_exit_root_num@);
            },
            IPolygonZkEVMGlobalExitRootCalls::UpdateExitRoot(call) => {
                assert(data.subrange(0, 4) =~= selector_update_exit_root());
                assert(data.subrange(4, 36) =~= call.new_rollup_exit_root@);
            },
        }
    }
}

impl GetLastGlobalExitRootReturn {
    /// Decodes return data: the first word.
    pub fn decode(data: &[u8]) -> (r: Result<GetLastGlobalExitRootReturn, AbiError>)
        ensures
            match r {
                Ok(ret) => data@.len() >= 32 && ret.0@ == data@.subrange(0, 32),
                Err(e) => data@.len() < 32 && e == AbiError::InvalidData,
            },
    {
        if data.len() < 32 {
            Err(AbiError::InvalidData)
        } else {
            Ok(GetLastGlobalExitRootReturn(word_at(data, 0)))
        }
    }
}

impl GlobalExitRootMapReturn {
    /// Decodes return data: the first word.
    pub fn decode(data: &[u8]) -> (r: Result<GlobalExitRootMapReturn, AbiError>)
        ensures
            match r {
                Ok(ret) => data@.len() >= 32 && ret.0@ == data@.subrange(0, 32),
                Err(e) => data@.len() < 32 && e == AbiError::InvalidData,
            },
    {
        if data.len() < 32 {
            Err(AbiError::InvalidData)
        } else {
            Ok(GlobalExitRootMapReturn(word_at(data, 0)))
        }
    }
}

impl IPolygonZkEVMGlobalExitRoot {
    /// The contract at `address`.
    pub fn new(address: [u8; 20]) -> (r: IPolygonZkEVMGlobalExitRoot)
        ensures
            r.address() == address,
    {
        IPolygonZkEVMGlobalExitRoot { address }
    }

    /// The address of the contract.
    pub closed spec fn address(self) -> [u8; 20] {
        self.address
    }

    /// The address of the contract.
    pub fn contract_address(&self) -> (a: [u8; 20])
        ensures
            a == self.address(),
    {
        self.address
    }

    /// Calls the contract's `getLastGlobalExitRoot` (0x3ed691ef) function
    pub fn get_last_global_exit_root(&self) -> (call: ContractCall)
        ensures
            call.to == self.address(),
            call.data@ == IPolygonZkEVMGlobalExitRootCalls::GetLastGlobalExitRoot(
                GetLastGlobalExitRootCall,
            ).encoding(),
    {
        ContractCall { to: self.address, data: GetLastGlobalExitRootCall.encode() }
    }

    /// Calls the contract's `globalExitRootMap` (0x257b3632) function
    pub fn global_exit_root_map(&self, global_exit_root_num: [u8; 32]) -> (call: ContractCall)
        ensures
            call.to == self.address(),
            call.data@ == IPolygonZkEVMGlobalExitRootCalls::GlobalExitRootMap(
                GlobalExitRootMapCall { global_exit_root_num },
            ).encoding(),
    {
        ContractCall {
            to: self.address,
            data: GlobalExitRootMapCall { global_exit_root_num }.encode(),
        }
    }

    /// Calls the contract's `updateExitRoot` (0x33d6247d) function
    pub fn update_exit_root(&self, new_rollup_exit_root: [u8; 32]) -> (call: ContractCall)
        ensures
            call.to == self.address(),
            call.data@ == IPolygonZkEVMGlobalExitRootCalls::UpdateExitRoot(
                UpdateExitRootCall { new_rollup_exit_root },
            ).encoding(),
    {
        ContractCall {
            to: self.address,
            data: UpdateExitRootCall { new_rollup_exit_root }.encode(),
        }
    }
}

} // verus!
