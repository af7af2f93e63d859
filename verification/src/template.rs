//! Shader-template rendering: the simulate program's source text carries a
//! workgroup-size placeholder token that must be substituted, exactly once
//! per occurrence and before compilation, with the decimal text of the
//! chosen workgroup size.

use vstd::prelude::*;

verus! {

/// The decimal digits of `n`, most significant first, as ASCII bytes.
pub open spec fn dec_digits(n: nat) -> Seq<u8>
    decreases n,
{
    if n < 10 {
        seq![(n + 48) as u8]
    } else {
        dec_digits(n / 10).push(((n % 10) + 48) as u8)
    }
}

/// The placeholder token recognised in the simulate shader source:
/// the ASCII bytes of `${WORKGROUP_SIZE}`.
pub open spec fn workgroup_token() -> Seq<u8> {
    seq![
        36u8, 123u8, 87u8, 79u8, 82u8, 75u8, 71u8, 82u8, 79u8, 85u8, 80u8, 95u8, 83u8, 73u8,
        90u8, 69u8, 125u8,
    ]
}

/// `s` with every occurrence of `pat` replaced by `repl`, scanning left to
/// right and never re-examining replaced text.
pub open spec fn replace_all(s: Seq<u8>, pat: Seq<u8>, repl: Seq<u8>) -> Seq<u8>
    decreases s.len(),
{
    if s.len() == 0 || pat.len() == 0 {
        s
    } else if pat.len() <= s.len() && s.subrange(0, pat.len() as int) == pat {
        repl + replace_all(s.subrange(pat.len() as int, s.len() as int), pat, repl)
    } else {
        seq![s[0]] + replace_all(s.subrange(1, s.len() as int), pat, repl)
    }
}

/// The decimal text of `n`, as bytes, matching `dec_digits`.
pub fn decimal_bytes(n: u32) -> (v: Vec<u8>)
    ensures
        v@ == dec_digits(n as nat),
    decreases n,
{
    if n < 10 {
        let mut v: Vec<u8> = Vec::new();
        v.push((n as u8) + 48);
        proof {
            assert(v@ =~= dec_digits(n as nat));
        }
        v
    } else {
        let mut v = decimal_bytes(n / 10);
        v.push(((n % 10) as u8) + 48);
        proof {
            assert(v@ =~= dec_digits(n as nat));
        }
        v
    }
}

/// The placeholder token as an executable byte vector.
pub fn workgroup_token_bytes() -> (v: Vec<u8>)
    ensures
        v@ == workgroup_token(),
{
    let mut v: Vec<u8> = Vec::new();
    v.push(36);
    v.push(123);
    v.push(87);
    v.push(79);
    v.push(82);
    v.push(75);
    v.push(71);
    v.push(82);
    v.push(79);
    v.push(85);
    v.push(80);
    v.push(95);
    v.push(83);
    v.push(73);
    v.push(90);
    v.push(69);
    v.push(125);
    proof {
        assert(v@ =~= workgroup_token());
    }
    v
}

/// Whether `pat` occurs in `s` starting at position `i`.
fn matches_at(s: &[u8], i: usize, pat: &Vec<u8>) -> (b: bool)
    requires
        i <= s@.len(),
    ensures
        b <==> (i + pat@.len() <= s@.len() && s@.subrange(
            i as int,
            i as int + pat@.len() as int,
        ) == pat@),
{
    let n: usize = s.len();
    if pat.len() > n - i {
        return false;
    }
    let mut j: usize = 0;
    while j < pat.len()
        invariant
            i + pat@.len() <= s@.len(),
            s@.len() <= usize::MAX,
            j <= pat@.len(),
            forall|k: int| 0 <= k < j ==> s@[i + k] == pat@[k],
        decreases pat@.len() - j,
    {
        if s[i + j] != pat[j] {
            proof {
                assert(s@.subrange(i as int, i as int + pat@.len() as int)[j as int] == s@[i
                    + j]);
            }
            return false;
        }
        j += 1;
    }
    proof {
        assert(s@.subrange(i as int, i as int + pat@.len() as int) =~= pat@);
    }
    true
}

/// Render the simulate-shader template: every occurrence of the
/// workgroup-size placeholder in `source` is replaced by the decimal text of
/// `workgroup_size`; all other bytes pass through unchanged.
pub fn render_template(source: &[u8], workgroup_size: u32) -> (out: Vec<u8>)
    ensures
        out@ == replace_all(source@, workgroup_token(), dec_digits(workgroup_size as nat)),
{
    let pat = workgroup_token_bytes();
    let mut out: Vec<u8> = Vec::new();
    let mut i: usize = 0;
    proof {
        assert(source@.subrange(0, source@.len() as int) =~= source@);
        assert(Seq::<u8>::empty() + replace_all(
            source@,
            pat@,
            dec_digits(workgroup_size as nat),
        ) =~= replace_all(source@, pat@, dec_digits(workgroup_size as nat)));
    }
    while i < source.len()
        invariant
            i <= source@.len(),
            pat@ == workgroup_token(),
            replace_all(source@, pat@, dec_digits(workgroup_size as nat)) == out@ + replace_all(
                source@.subrange(i as int, source@.len() as int),
                pat@,
                dec_digits(workgroup_size as nat),
            ),
        decreases source@.len() - i,
    {
        let ghost repl = dec_digits(workgroup_size as nat);
        let ghost i0 = i as int;
        let ghost rest = source@.subrange(i0, source@.len() as int);
        if matches_at(source, i, &pat) {
            proof {
                assert(rest.subrange(0, pat@.len() as int) =~= source@.subrange(
                    i0,
                    i0 + pat@.len() as int,
                ));
                assert(rest.subrange(pat@.len() as int, rest.len() as int) =~= source@.subrange(
                    i0 + pat@.len() as int,
                    source@.len() as int,
                ));
            }
            let mut digits = decimal_bytes(workgroup_size);
            out.append(&mut digits);
            i = i + pat.len();
            proof {
                assert(replace_all(rest, pat@, repl) == repl + replace_all(
                    source@.subrange(i as int, source@.len() as int),
                    pat@,
                    repl,
                ));
                assert(out@ + replace_all(
                    source@.subrange(i as int, source@.len() as int),
                    pat@,
                    repl,
                ) =~= replace_all(source@, pat@, repl));
            }
        } else {
            proof {
                if i0 + pat@.len() <= source@.len() {
                    assert(rest.subrange(0, pat@.len() as int) =~= source@.subrange(
                        i0,
                        i0 + pat@.len() as int,
                    ));
                }
                assert(rest.subrange(1, rest.len() as int) =~= source@.subrange(
                    i0 + 1,
                    source@.len() as int,
                ));
            }
            out.push(source[i]);
            i = i + 1;
            proof {
                assert(replace_all(rest, pat@, repl) == seq![rest[0]] + replace_all(
                    source@.subrange(i as int, source@.len() as int),
                    pat@,
                    repl,
                ));
                assert(out@ + replace_all(
                    source@.subrange(i as int, source@.len() as int),
                    pat@,
                    repl,
                ) =~= replace_all(source@, pat@, repl));
            }
        }
    }
    proof {
        assert(source@.subrange(i as int, source@.len() as int) =~= Seq::<u8>::empty());
        assert(out@ + replace_all(
            Seq::<u8>::empty(),
            pat@,
            dec_digits(workgroup_size as nat),
        ) =~= out@);
    }
    out
}

} // verus!
