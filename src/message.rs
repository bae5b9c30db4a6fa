use vstd::prelude::*;
use vstd::string::StringExecFns;
use crate::workload::WorkloadRef;

verus! {

/// The decimal digit character for `d`, for `d < 10`.
pub open spec fn digit_char(d: nat) -> char {
    seq!['0', '1', '2', '3', '4', '5', '6', '7', '8', '9'][d as int]
}

/// The decimal representation of `n`, without leading zeros.
pub open spec fn decimal(n: nat) -> Seq<char>
    decreases n,
{
    if n < 10 {
        seq![digit_char(n)]
    } else {
        decimal(n / 10).push(digit_char(n % 10))
    }
}

/// The text reporting one workload that lacks a node selector.
pub open spec fn single_text(env: Seq<char>, name: Seq<char>) -> Seq<char> {
    "⚠️ Deployment missing nodeSelector\nenv: "@ + env + "\nname: "@ + name
}

/// One line of a batch report: "• namespace/name".
pub open spec fn entry_text(r: (Seq<char>, Seq<char>)) -> Seq<char> {
    "• "@ + r.0 + "/"@ + r.1
}

/// The entries' lines joined by newlines, in order.
pub open spec fn list_text(refs: Seq<(Seq<char>, Seq<char>)>) -> Seq<char>
    decreases refs.len(),
{
    if refs.len() == 0 {
        Seq::empty()
    } else if refs.len() == 1 {
        entry_text(refs[0])
    } else {
        list_text(refs.drop_last()) + "\n"@ + entry_text(refs.last())
    }
}

/// The text reporting all the violations found while priming, with their count.
pub open spec fn batch_text(env: Seq<char>, refs: Seq<(Seq<char>, Seq<char>)>) -> Seq<char> {
    "⚠️ Found "@ + decimal(refs.len()) + " deployment(s) missing nodeSelector\nenv: "@ + env
        + "\n"@ + list_text(refs)
}

/// The one-character string of the digit `d`.
fn digit_str(d: usize) -> (r: &'static str)
    requires
        d < 10,
    ensures
        r@ == seq![digit_char(d as nat)],
{
    proof {
        reveal_strlit("0");
        reveal_strlit("1");
        reveal_strlit("2");
        reveal_strlit("3");
        reveal_strlit("4");
        reveal_strlit("5");
        reveal_strlit("6");
        reveal_strlit("7");
        reveal_strlit("8");
        reveal_strlit("9");
    }
    let r = if d == 0 {
        "0"
    } else if d == 1 {
        "1"
    } else if d == 2 {
        "2"
    } else if d == 3 {
        "3"
    } else if d == 4 {
        "4"
    } else if d == 5 {
        "5"
    } else if d == 6 {
        "6"
    } else if d == 7 {
        "7"
    } else if d == 8 {
        "8"
    } else {
        "9"
    };
    assert(r@ =~= seq![digit_char(d as nat)]);
    r
}

/// Appends the decimal representation of `n` to `out`.
fn push_decimal(out: &mut String, n: usize)
    ensures
        final(out)@ == old(out)@ + decimal(n as nat),
    decreases n,
{
    if n >= 10 {
        push_decimal(out, n / 10);
    }
    out.append(digit_str(n % 10));
    assert(decimal(n as nat) == if n < 10 { seq![digit_char(n as nat)] } else { decimal((n / 10) as nat).push(digit_char((n % 10) as nat)) });
    if n < 10 {
        assert(old(out)@ + decimal(n as nat) =~= old(out)@ + seq![digit_char(n as nat)]);
    } else {
        assert(old(out)@ + decimal(n as nat) =~= old(out)@ + decimal((n / 10) as nat) + seq![digit_char((n % 10) as nat)]);
    }
}

/// The message for a single workload without a node selector.
pub fn single_message(env: &str, name: &str) -> (r: String)
    ensures
        r@ == single_text(env@, name@),
{
    let mut s = String::from_str("⚠️ Deployment missing nodeSelector\nenv: ");
    s.append(env);
    s.append("\nname: ");
    s.append(name);
    s
}

/// The digest message for the violations found while priming, listed in order.
pub fn batch_message(env: &str, refs: &Vec<WorkloadRef>) -> (r: String)
    ensures
        r@ == batch_text(env@, refs@.map_values(|x: WorkloadRef| x@)),
{
    let ghost views = refs@.map_values(|x: WorkloadRef| x@);
    let mut s = String::from_str("⚠️ Found ");
    push_decimal(&mut s, refs.len());
    s.append(" deployment(s) missing nodeSelector\nenv: ");
    s.append(env);
    s.append("\n");
    let ghost head = s@;
    let mut i: usize = 0;
    assert(views.subrange(0, 0) =~= Seq::<(Seq<char>, Seq<char>)>::empty());
    assert(s@ =~= head + list_text(views.subrange(0, 0)));
    while i < refs.len()
        invariant
            i <= refs@.len(),
            views == refs@.map_values(|x: WorkloadRef| x@),
            s@ == head + list_text(views.subrange(0, i as int)),
        decreases refs@.len() - i,
    {
        let ghost before = s@;
        if i > 0 {
            s.append("\n");
        }
        s.append("• ");
        s.append(refs[i].namespace.as_str());
        s.append("/");
        s.append(refs[i].name.as_str());
        let ghost part = views.subrange(0, i + 1);
        assert(part.drop_last() =~= views.subrange(0, i as int));
        assert(part.last() == views[i as int]);
        assert(s@ =~= head + list_text(part));
        i = i + 1;
    }
    assert(views.subrange(0, refs@.len() as int) =~= views);
    s
}

} // verus!
