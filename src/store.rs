//! Names of the files that hold the cached parameters.
use vstd::prelude::*;

verus! {

/// The ASCII decimal digits of `n`, most significant first, without leading
/// zeros (zero is "0").
pub open spec fn decimal(n: nat) -> Seq<u8>
    decreases n,
{
    if n < 10 {
        seq![(48 + n) as u8]
    } else {
        decimal(n / 10).push((48 + n % 10) as u8)
    }
}

/// "sha256_params_k_" in ASCII.
pub open spec fn params_prefix() -> Seq<u8> {
    seq![
        0x73u8, 0x68u8, 0x61u8, 0x32u8, 0x35u8, 0x36u8, 0x5fu8, 0x70u8,
        0x61u8, 0x72u8, 0x61u8, 0x6du8, 0x73u8, 0x5fu8, 0x6bu8, 0x5fu8,
    ]
}

/// Appends the decimal digits of `n` to `out`.
pub fn push_decimal(n: u32, out: &mut Vec<u8>)
    ensures
        final(out)@ == old(out)@ + decimal(n as nat),
    decreases n,
{
    if n >= 10 {
        push_decimal(n / 10, out);
    }
    out.push((48 + n % 10) as u8);
    assert(out@ =~= old(out)@ + decimal(n as nat));
}

/// The name of the file that caches the commitment parameters for domain
/// size exponent `k`: "sha256_params_k_" followed by `k` in decimal.
pub fn params_file_name(k: u32) -> (r: Vec<u8>)
    ensures
        r@ == params_prefix() + decimal(k as nat),
{
    let mut out: Vec<u8> = vec![
        0x73, 0x68, 0x61, 0x32, 0x35, 0x36, 0x5f, 0x70,
        0x61, 0x72, 0x61, 0x6d, 0x73, 0x5f, 0x6b, 0x5f,
    ];
    assert(out@ =~= params_prefix());
    push_decimal(k, &mut out);
    out
}

} // verus!
