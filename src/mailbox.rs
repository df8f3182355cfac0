use vstd::prelude::*;

use crate::batch::TransactionOverrides;
use crate::error::ChainError;

verus! {

/// Gas added to every gas estimate, so that a small change of state between the
/// estimate and the inclusion does not make the transaction run out of gas.
pub const GAS_ESTIMATE_BUFFER: u64 = 75_000;

/// Signature of the mailbox's delivery function.
pub const PROCESS_SIGNATURE: &'static str = "process(bytes,bytes)";

/// The chain a contract lives on.
#[derive(Debug, Clone, Copy, PartialEq, Eq, Structural)]
pub struct ChainDomain {
    pub id: u32,
    /// Arbitrum Nitro based chains, whose gas estimates count the gas of both layers.
    pub is_arbitrum_nitro: bool,
}

/// Where a contract is: its chain and its address.
#[derive(Debug, Clone, Copy, PartialEq, Eq)]
pub struct ContractLocator {
    pub domain: ChainDomain,
    pub address: [u8; 32],
}

/// The gas cost of one delivery.
#[derive(Debug, Clone, Copy, PartialEq, Eq, Structural)]
pub struct TxCostEstimate {
    pub gas_limit: u64,
    pub gas_price: u128,
    /// The execution-layer gas alone, on chains that separate the two layers.
    pub l2_gas_limit: Option<u64>,
}

/// The address of Arbitrum's node interface, `0x00..00C8`.
pub open spec fn node_interface_spec() -> Seq<u8> {
    Seq::new(19, |i: int| 0u8).push(0xC8u8)
}

/// The node interface precompile, through which the execution-layer gas alone is
/// estimated on Arbitrum Nitro chains.
pub fn node_interface_address() -> (r: [u8; 20])
    ensures
        r@ == node_interface_spec(),
{
    let r: [u8; 20] = [0, 0, 0, 0, 0, 0, 0, 0, 0, 0, 0, 0, 0, 0, 0, 0, 0, 0, 0, 0xC8];
    assert(r@ =~= node_interface_spec());
    r
}

/// Gas limit of a transaction: the limit the call already carries, or else the
/// network's estimate, plus `GAS_ESTIMATE_BUFFER` (saturating); a fixed limit of
/// the operator's raises it. Without a preset limit and an estimate, it fails.
pub fn fill_gas_limit(
    preset: Option<u64>,
    estimated: Option<u64>,
    overrides: &TransactionOverrides,
) -> (r: Result<u64, ChainError>)
    ensures
        preset is None && estimated is None ==> r == Err::<u64, ChainError>(ChainError::GasFill),
        (preset is Some || estimated is Some) ==> r == Ok::<u64, ChainError>(
            gas_limit_spec(
                if preset is Some {
                    preset.unwrap()
                } else {
                    estimated.unwrap()
                },
                overrides.gas_limit,
            ),
        ),
{
    let base = match preset {
        Some(g) => g,
        None => match estimated {
            Some(g) => g,
            None => {
                return Err(ChainError::GasFill);
            },
        },
    };
    let buffered = if base <= u64::MAX - GAS_ESTIMATE_BUFFER {
        base + GAS_ESTIMATE_BUFFER
    } else {
        u64::MAX
    };
    match overrides.gas_limit {
        Some(fixed) => Ok(
            if fixed > buffered {
                fixed
            } else {
                buffered
            },
        ),
        None => Ok(buffered),
    }
}

/// `base + GAS_ESTIMATE_BUFFER`, saturating, raised to a fixed limit if one is set.
pub open spec fn gas_limit_spec(base: u64, fixed: Option<u64>) -> u64 {
    let buffered = if base + GAS_ESTIMATE_BUFFER > u64::MAX {
        u64::MAX
    } else {
        (base + GAS_ESTIMATE_BUFFER) as u64
    };
    match fixed {
        Some(f) => if f > buffered {
            f
        } else {
            buffered
        },
        None => buffered,
    }
}

/// Gas price of a transaction: the operator's fixed price, or else the network's
/// price scaled by the operator's multiplier (in percent, rounded down). Fails
/// when there is no price to start from or the scaled price does not fit.
pub fn fill_gas_price(network_price: Option<u128>, overrides: &TransactionOverrides) -> (r: Result<
    u128,
    ChainError,
>)
    ensures
        overrides.gas_price matches Some(p) ==> r == Ok::<u128, ChainError>(p),
        overrides.gas_price is None && network_price is None ==> r == Err::<u128, ChainError>(
            ChainError::GasFill,
        ),
        overrides.gas_price is None && network_price is Some ==> ({
            let p = network_price.unwrap();
            match overrides.gas_price_multiplier_percent {
                None => r == Ok::<u128, ChainError>(p),
                Some(m) => if p * m <= u128::MAX {
                    r == Ok::<u128, ChainError>((p * m / 100) as u128)
                } else {
                    r == Err::<u128, ChainError>(ChainError::GasFill)
                },
            }
        }),
{
    if let Some(p) = overrides.gas_price {
        return Ok(p);
    }
    let p = match network_price {
        Some(p) => p,
        None => {
            return Err(ChainError::GasFill);
        },
    };
    match overrides.gas_price_multiplier_percent {
        None => Ok(p),
        Some(m) => match p.checked_mul(m as u128) {
            Some(scaled) => Ok(scaled / 100),
            None => Err(ChainError::GasFill),
        },
    }
}

/// Largest combined length of the two byte strings handed to the ABI encoder.
/// The encoder computes its offsets in 32-bit arithmetic and reserves 32 bytes of
/// capacity per byte of output; this bound keeps both far from their limits.
pub const MAX_ENCODED_PAYLOAD: usize = 0x0100_0000;

/// `n` as a 32-byte big-endian word (for `n < 2^32`: 28 zero bytes, then 4 bytes).
pub open spec fn abi_word(n: nat) -> Seq<u8> {
    Seq::new(
        32,
        |i: int|
            if i < 28 {
                0u8
            } else if i == 28 {
                ((n / 0x1000000) % 256) as u8
            } else if i == 29 {
                ((n / 0x10000) % 256) as u8
            } else if i == 30 {
                ((n / 0x100) % 256) as u8
            } else {
                (n % 256) as u8
            },
    )
}

/// A length rounded up to a multiple of 32.
pub open spec fn padded_len(len: nat) -> nat {
    ((len + 31) / 32) * 32
}

/// `b` followed by zeros up to a multiple of 32 bytes.
pub open spec fn zero_padded(b: Seq<u8>) -> Seq<u8> {
    b + Seq::new((padded_len(b.len()) - b.len()) as nat, |i: int| 0u8)
}

/// The ABI encoding of the tuple `(bytes first, bytes second)`: two offset words,
/// then each value as its length word followed by its bytes, zero-padded.
pub open spec fn abi_bytes_pair(first: Seq<u8>, second: Seq<u8>) -> Seq<u8> {
    abi_word(64) + abi_word(96 + padded_len(first.len())) + abi_word(first.len()) + zero_padded(first)
        + abi_word(second.len()) + zero_padded(second)
}

/// Names what `ethers_core::utils::id` returns for a function signature.
pub uninterp spec fn selector_of(signature: Seq<char>) -> Seq<u8>;

/// Relies on `ethers_core::abi::encode` (ethabi's encoder): for two `bytes`
/// tokens, the head of two offset words and the two length-prefixed, zero-padded
/// tails. Its offset arithmetic is 32-bit, hence the bound on the lengths.
#[verifier::external_body]
fn encode_bytes_pair(first: &Vec<u8>, second: &Vec<u8>) -> (r: Vec<u8>)
    requires
        first@.len() + second@.len() <= MAX_ENCODED_PAYLOAD,
    ensures
        r@ == abi_bytes_pair(first@, second@),
{
    ethers_core::abi::encode(
        &[
            ethers_core::abi::Token::Bytes(first.clone()),
            ethers_core::abi::Token::Bytes(second.clone()),
        ],
    )
}

/// Relies on `ethers_core::utils::id`: the four-byte selector of a function
/// signature (the first bytes of its keccak-256 hash).
#[verifier::external_body]
fn function_selector(signature: &str) -> (r: [u8; 4])
    ensures
        r@ == selector_of(signature@),
{
    ethers_core::utils::id(signature)
}

/// A mailbox contract on one chain, with the settings its transactions use.
#[derive(Debug, Clone, Copy)]
pub struct EthereumMailbox {
    pub address: [u8; 32],
    pub domain: ChainDomain,
    /// Set on Arbitrum Nitro chains only: the contract through which the
    /// execution-layer gas is estimated.
    pub arbitrum_node_interface: Option<[u8; 20]>,
    pub transaction_overrides: TransactionOverrides,
}

impl EthereumMailbox {
    /// A mailbox at `locator`. Whether the chain needs a separate execution-layer
    /// estimate is settled here, once.
    pub fn new(locator: &ContractLocator, transaction_overrides: TransactionOverrides) -> (r: Self)
        ensures
            r.address == locator.address,
            r.domain == locator.domain,
            r.transaction_overrides == transaction_overrides,
            locator.domain.is_arbitrum_nitro ==> (r.arbitrum_node_interface matches Some(a) && a@
                == node_interface_spec()),
            !locator.domain.is_arbitrum_nitro ==> r.arbitrum_node_interface is None,
    {
        let arbitrum_node_interface = if locator.domain.is_arbitrum_nitro {
            Some(node_interface_address())
        } else {
            None
        };
        EthereumMailbox {
            address: locator.address,
            domain: locator.domain,
            arbitrum_node_interface,
            transaction_overrides,
        }
    }

    /// Whether a cost estimate must also ask the node interface.
    pub fn needs_l2_estimate(&self) -> (r: bool)
        ensures
            r == self.arbitrum_node_interface is Some,
    {
        self.arbitrum_node_interface.is_some()
    }

    /// Assembles the cost of a delivery from the gas limit that the filled call
    /// carries, the node interface's estimate and the gas price.
    ///
    /// A call without a gas limit has none to report. On chains that need the
    /// execution-layer estimate, it must be there and is reported; on the others
    /// it is never reported.
    pub fn process_estimate_costs(
        &self,
        call_gas_limit: Option<u64>,
        l2_gas_limit: Option<u64>,
        gas_price: u128,
    ) -> (r: Result<TxCostEstimate, ChainError>)
        ensures
            call_gas_limit is None ==> r == Err::<TxCostEstimate, ChainError>(
                ChainError::GasLimitUnavailable,
            ),
            call_gas_limit is Some && self.arbitrum_node_interface is Some && l2_gas_limit is None
                ==> r == Err::<TxCostEstimate, ChainError>(ChainError::GasLimitUnavailable),
            call_gas_limit matches Some(g) ==> (self.arbitrum_node_interface is Some
                && l2_gas_limit is Some ==> r == Ok::<TxCostEstimate, ChainError>(
                TxCostEstimate { gas_limit: g, gas_price, l2_gas_limit },
            )),
            call_gas_limit matches Some(g) ==> (self.arbitrum_node_interface is None ==> r
                == Ok::<TxCostEstimate, ChainError>(
                TxCostEstimate { gas_limit: g, gas_price, l2_gas_limit: None },
            )),
            r matches Ok(e) ==> (e.l2_gas_limit is Some <==> self.arbitrum_node_interface is Some),
    {
        let gas_limit = match call_gas_limit {
            Some(g) => g,
            None => {
                return Err(ChainError::GasLimitUnavailable);
            },
        };
        let l2 = if self.arbitrum_node_interface.is_some() {
            match l2_gas_limit {
                Some(l) => Some(l),
                None => {
                    return Err(ChainError::GasLimitUnavailable);
                },
            }
        } else {
            None
        };
        Ok(TxCostEstimate { gas_limit, gas_price, l2_gas_limit: l2 })
    }

    /// The calldata of a delivery: the selector of `process(bytes,bytes)`
    /// followed by the ABI encoding of the metadata and the encoded message.
    pub fn process_calldata(&self, message: &Vec<u8>, metadata: &Vec<u8>) -> (r: Vec<u8>)
        requires
            message@.len() + metadata@.len() <= MAX_ENCODED_PAYLOAD,
        ensures
            selector_of(PROCESS_SIGNATURE@).len() == 4,
            r@.subrange(0, 4) == selector_of(PROCESS_SIGNATURE@),
            r@ == selector_of(PROCESS_SIGNATURE@) + abi_bytes_pair(metadata@, message@),
    {
        let selector = function_selector(PROCESS_SIGNATURE);
        let mut out: Vec<u8> = Vec::new();
        let mut i: usize = 0;
        while i < 4
            invariant
                i <= 4,
                selector@.len() == 4,
                out@ == selector@.subrange(0, i as int),
            decreases 4 - i,
        {
            out.push(selector[i]);
            i = i + 1;
            assert(out@ =~= selector@.subrange(0, i as int));
        }
        assert(out@ =~= selector@);
        let mut encoded = encode_bytes_pair(metadata, message);
        out.append(&mut encoded);
        assert(out@.subrange(0, 4) =~= selector@);
        out
    }
}

} // verus!
