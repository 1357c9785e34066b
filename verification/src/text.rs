use vstd::prelude::*;

verus! {

/// The text before the first NUL byte of `s` (or all of `s` when it has
/// none), each byte read as the char with that code point.
pub open spec fn spec_cstr(s: Seq<u8>) -> Seq<char>
    decreases s.len(),
{
    if s.len() == 0 {
        Seq::empty()
    } else if s[0] == 0 {
        Seq::empty()
    } else {
        seq![s[0] as char] + spec_cstr(s.drop_first())
    }
}

/// Relies on std's String::push: appends exactly the one char.
#[verifier::external_body]
fn push_char(out: &mut String, c: char)
    ensures
        final(out)@ == old(out)@.push(c),
{
    out.push(c);
}

/// Collect the NUL-terminated name that starts `input` into an owned
/// string, byte for byte; without a NUL, the whole slice is taken.
pub fn read_cstr(input: &[u8]) -> (r: String)
    ensures
        r@ == spec_cstr(input@),
{
    let n = input.len();
    let mut output = String::new();
    let mut i: usize = 0;
    proof {
        assert(input@.skip(0) =~= input@);
        assert(output@ + spec_cstr(input@.skip(0)) =~= spec_cstr(input@));
    }
    while i < n
        invariant
            n == input@.len(),
            i <= n,
            spec_cstr(input@) == output@ + spec_cstr(input@.skip(i as int)),
        decreases n - i,
    {
        let c = input[i];
        if c == 0 {
            proof {
                assert(spec_cstr(input@.skip(i as int)) =~= Seq::<char>::empty());
                assert(output@ + Seq::<char>::empty() =~= output@);
            }
            return output;
        }
        proof {
            assert(input@.skip(i as int).drop_first() =~= input@.skip(i + 1));
            assert(output@.push(c as char) + spec_cstr(input@.skip(i + 1)) =~= output@ + (seq![
                c as char,
            ] + spec_cstr(input@.skip(i + 1))));
        }
        push_char(&mut output, c as char);
        i = i + 1;
    }
    proof {
        assert(spec_cstr(input@.skip(n as int)) =~= Seq::<char>::empty());
        assert(output@ + Seq::<char>::empty() =~= output@);
    }
    output
}

} // verus!
