//! Blockchain endpoints: validation of program interactions and the values
//! they report.

use vstd::prelude::*;
use crate::error::ApiError;
use vstd::string::StringSliceAdditionalSpecFns;
use crate::text::{concat_str, str_eq, push_char};

verus! {

/// The programs that can be interacted with.
pub open spec fn is_known_program(name: Seq<char>) -> bool {
    name == "registry"@ || name == "trading"@ || name == "energy-token"@ || name == "oracle"@ || name == "governance"@
}

/// The known programs are exactly registry, trading, energy-token, oracle and
/// governance.
pub proof fn law_known_programs(name: Seq<char>)
    ensures
        is_known_program(name) <==> (name == "registry"@ || name == "trading"@ || name == "energy-token"@
            || name == "oracle"@ || name == "governance"@),
        is_known_program("registry"@) && is_known_program("trading"@) && is_known_program("energy-token"@)
            && is_known_program("oracle"@) && is_known_program("governance"@),
{
}

/// Compute units charged when a request names none.
pub const DEFAULT_COMPUTE_UNITS: u32 = 10000;

/// Seconds a program interaction is expected to take to confirm.
pub const ESTIMATED_CONFIRMATION_SECONDS: i32 = 15;

/// A program interaction must name a known program and a non-empty instruction.
pub fn validate_program_interaction(program_name: &str, instruction: &str) -> (r: Result<(), ApiError>)
    ensures
        r is Ok <==> ((program_name@ == "registry"@ || program_name@ == "trading"@ || program_name@ == "energy-token"@
            || program_name@ == "oracle"@ || program_name@ == "governance"@) && instruction@.len() > 0),
        !is_known_program(program_name@) ==> (r matches Err(ApiError::BadRequest(m))
            && m@ == "Invalid program name: "@ + program_name@),
        is_known_program(program_name@) && instruction@.len() == 0 ==> (r matches Err(ApiError::BadRequest(m))
            && m@ == "Instruction cannot be empty"@),
        is_known_program(program_name@) && instruction@.len() > 0 ==> r is Ok,
{
    let known = str_eq(program_name, "registry") || str_eq(program_name, "trading")
        || str_eq(program_name, "energy-token") || str_eq(program_name, "oracle")
        || str_eq(program_name, "governance");
    if !known {
        return Err(ApiError::BadRequest(concat_str("Invalid program name: ", program_name)));
    }
    if instruction.is_empty() {
        return Err(ApiError::BadRequest(String::from_str("Instruction cannot be empty")));
    }
    Ok(())
}

/// The compute units recorded for an interaction, as the signed 32-bit value
/// stored (values above `i32::MAX` wrap around).
pub fn compute_units_recorded(compute_units: Option<u32>) -> (c: i32)
    ensures
        c == (match compute_units { Some(u) => u, None => DEFAULT_COMPUTE_UNITS }) as i32,
{
    let units = match compute_units {
        Some(u) => u,
        None => DEFAULT_COMPUTE_UNITS,
    };
    #[verifier::truncate]
    (units as i32)
}

/// `s` with every `-` removed.
pub open spec fn without_dashes(s: Seq<char>) -> Seq<char> {
    s.filter(|c: char| c != '-')
}

/// The signature recorded for a simulated program interaction:
/// `"prog_<program>_<id without dashes>"`.
pub fn program_signature(program_name: &str, id: &str) -> (s: String)
    ensures s@ == "prog_"@ + program_name@ + "_"@ + without_dashes(id@),
{
    let mut s = concat_str("prog_", program_name);
    s.append("_");
    let ghost base = s@;
    let n = id.unicode_len();
    let mut i: usize = 0;
    proof {
        reveal(Seq::filter);
        assert(id@.take(0) =~= Seq::<char>::empty());
    }
    while i < n
        invariant
            n == id@.len(),
            i <= n,
            s@ == base + without_dashes(id@.take(i as int)),
        decreases n - i,
    {
        let c = id.get_char(i);
        proof {
            assert(id@.take(i as int).push(c) =~= id@.take(i + 1));
            id@.take(i as int).lemma_filter_push(c, |c: char| c != '-');
        }
        if c != '-' {
            push_char(&mut s, c);
        }
        i = i + 1;
    }
    proof { assert(id@.take(n as int) =~= id@); }
    s
}

/// The health label of the cluster.
pub fn network_health(is_healthy: bool) -> (h: &'static str)
    ensures h@ == (if is_healthy { "ok"@ } else { "degraded"@ }),
{
    if is_healthy { "ok" } else { "degraded" }
}

} // verus!

verus! {

/// The token account label shown for a wallet: its first eight bytes followed
/// by `"...token"` (the whole address when it is shorter).
pub fn token_account_label(wallet_address: &str) -> (label: String)
    requires
        wallet_address.len() <= 8 || vstd::utf8::is_char_boundary(wallet_address.spec_bytes(), 8),
    ensures
        wallet_address.len() <= 8 ==> label@ == wallet_address@ + "...token"@,
        wallet_address.len() > 8 ==> exists|prefix: Seq<char>|
            #[trigger] vstd::utf8::encode_utf8(prefix) == wallet_address.spec_bytes().subrange(0, 8)
            && label@ == prefix + "...token"@,
{
    if wallet_address.len() <= 8 {
        concat_str(wallet_address, "...token")
    } else {
        let (prefix, _) = wallet_address.split_at(8);
        let label = concat_str(prefix, "...token");
        assert(vstd::utf8::encode_utf8(prefix@) == wallet_address.spec_bytes().subrange(0, 8));
        label
    }
}

} // verus!

verus! {

/// Response for transaction submission.
#[derive(Debug, Clone)]
pub struct TransactionResponse {
    pub signature: String,
    pub status: String,
    /// Unix time in milliseconds.
    pub submitted_at: i64,
    /// Seconds.
    pub estimated_confirmation_time: i32,
}

/// The answer to an accepted program interaction: pending, expected to
/// confirm within 15 seconds.
pub fn program_interaction_response(signature: String, submitted_at: i64) -> (r: TransactionResponse)
    ensures
        r.signature == signature,
        r.status@ == "pending"@,
        r.submitted_at == submitted_at,
        r.estimated_confirmation_time == ESTIMATED_CONFIRMATION_SECONDS,
{
    TransactionResponse {
        signature,
        status: String::from_str("pending"),
        submitted_at,
        estimated_confirmation_time: ESTIMATED_CONFIRMATION_SECONDS,
    }
}

/// Account information response.
#[derive(Debug, Clone)]
pub struct AccountInfo {
    pub address: String,
    /// Balance in SOL.
    pub balance: crate::models::DecimalAmount,
    pub executable: bool,
    pub owner: String,
    pub rent_epoch: u64,
    pub data_length: usize,
}

/// Lamports in one SOL.
pub const LAMPORTS_PER_SOL: u64 = 1000000000;

/// The information reported for an account holding `balance_lamports` and
/// `data_length` bytes of data: the balance in SOL (lamports / 10^9), owned by
/// the system program as far as is known.
pub fn account_info(address: String, balance_lamports: u64, data_length: usize) -> (a: AccountInfo)
    ensures
        a.address == address,
        a.balance.mantissa == balance_lamports as int,
        a.balance.scale == 9,
        !a.executable,
        a.owner@ == "11111111111111111111111111111111"@,
        a.rent_epoch == 0,
        a.data_length == data_length,
{
    AccountInfo {
        address,
        balance: crate::models::DecimalAmount { mantissa: balance_lamports as i128, scale: 9 },
        executable: false,
        owner: String::from_str("11111111111111111111111111111111"),
        rent_epoch: 0,
        data_length,
    }
}

} // verus!
