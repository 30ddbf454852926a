//! The files the pipeline produces and their names.
use vstd::prelude::*;

verus! {

/// One output file of the pipeline.
#[derive(Clone, Copy, Debug, PartialEq, Eq, Structural)]
pub enum Artifact {
    /// The diffuse irradiance map.
    Diffuse,
    /// One prefiltered specular level.
    Specular1(u32),
    /// The secondary specular resolve.
    Specular2,
}

/// The character of decimal digit `d`.
pub open spec fn digit_char(d: nat) -> char {
    if d == 0 {
        '0'
    } else if d == 1 {
        '1'
    } else if d == 2 {
        '2'
    } else if d == 3 {
        '3'
    } else if d == 4 {
        '4'
    } else if d == 5 {
        '5'
    } else if d == 6 {
        '6'
    } else if d == 7 {
        '7'
    } else if d == 8 {
        '8'
    } else {
        '9'
    }
}

/// `n` written in decimal without leading zeros.
pub open spec fn decimal(n: nat) -> Seq<char>
    decreases n,
{
    if n < 10 {
        seq![digit_char(n)]
    } else {
        decimal(n / 10).push(digit_char(n % 10))
    }
}

/// The file name of `a`: `diffuse.hdr`, `specular_1_<level>.hdr` or
/// `specular_2.hdr`.
pub open spec fn artifact_file_name(a: Artifact) -> Seq<char> {
    match a {
        Artifact::Diffuse => seq!['d', 'i', 'f', 'f', 'u', 's', 'e', '.', 'h', 'd', 'r'],
        Artifact::Specular1(level) => seq!['s', 'p', 'e', 'c', 'u', 'l', 'a', 'r', '_', '1', '_'] + decimal(
            level as nat,
        ) + seq!['.', 'h', 'd', 'r'],
        Artifact::Specular2 => seq!['s', 'p', 'e', 'c', 'u', 'l', 'a', 'r', '_', '2', '.', 'h', 'd', 'r'],
    }
}

/// Every artifact of a run with `total_mips` specular levels, in the order
/// they are read back: diffuse, the specular levels upward, the resolve.
pub open spec fn artifact_plan(total_mips: u32) -> Seq<Artifact> {
    seq![Artifact::Diffuse] + Seq::new(total_mips as nat, |i: int| Artifact::Specular1(i as u32)) + seq![
        Artifact::Specular2,
    ]
}

/// The one-character string of decimal digit `d`.
fn digit_str(d: u32) -> (r: &'static str)
    requires
        d < 10,
    ensures
        r@ == seq![digit_char(d as nat)],
{
    if d == 0 {
        proof { reveal_strlit("0"); }
        "0"
    } else if d == 1 {
        proof { reveal_strlit("1"); }
        "1"
    } else if d == 2 {
        proof { reveal_strlit("2"); }
        "2"
    } else if d == 3 {
        proof { reveal_strlit("3"); }
        "3"
    } else if d == 4 {
        proof { reveal_strlit("4"); }
        "4"
    } else if d == 5 {
        proof { reveal_strlit("5"); }
        "5"
    } else if d == 6 {
        proof { reveal_strlit("6"); }
        "6"
    } else if d == 7 {
        proof { reveal_strlit("7"); }
        "7"
    } else if d == 8 {
        proof { reveal_strlit("8"); }
        "8"
    } else {
        proof { reveal_strlit("9"); }
        "9"
    }
}

/// Appends `n` in decimal to `s`.
fn append_decimal(s: &mut String, n: u32)
    ensures
        final(s)@ == old(s)@ + decimal(n as nat),
    decreases n,
{
    if n >= 10 {
        append_decimal(s, n / 10);
    }
    s.append(digit_str(n % 10));
    proof {
        if n >= 10 {
            assert(decimal(n as nat) == decimal((n / 10) as nat).push(digit_char((n % 10) as nat)));
        }
    }
}

impl Artifact {
    /// The name of the file this artifact is written to.
    pub fn file_name(&self) -> (r: String)
        ensures
            r@ == artifact_file_name(*self),
    {
        match self {
            Artifact::Diffuse => {
                proof { reveal_strlit("diffuse.hdr"); }
                String::from_str("diffuse.hdr")
            },
            Artifact::Specular1(level) => {
                proof {
                    reveal_strlit("specular_1_");
                    reveal_strlit(".hdr");
                }
                let mut s = String::from_str("specular_1_");
                append_decimal(&mut s, *level);
                s.append(".hdr");
                s
            },
            Artifact::Specular2 => {
                proof { reveal_strlit("specular_2.hdr"); }
                String::from_str("specular_2.hdr")
            },
        }
    }
}

/// The artifacts of a run with `total_mips` specular levels, in read-back
/// order.
pub fn artifacts(total_mips: u32) -> (r: Vec<Artifact>)
    ensures
        r@ == artifact_plan(total_mips),
{
    let mut out: Vec<Artifact> = Vec::new();
    out.push(Artifact::Diffuse);
    let mut mip_level: u32 = 0;
    while mip_level < total_mips
        invariant
            mip_level <= total_mips,
            out@ == seq![Artifact::Diffuse] + Seq::new(mip_level as nat, |i: int| Artifact::Specular1(i as u32)),
        decreases total_mips - mip_level,
    {
        out.push(Artifact::Specular1(mip_level));
        mip_level = mip_level + 1;
        assert(out@ =~= seq![Artifact::Diffuse] + Seq::new(mip_level as nat, |i: int| Artifact::Specular1(i as u32)));
    }
    out.push(Artifact::Specular2);
    out
}

} // verus!
