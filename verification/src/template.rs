//! Message templates: text with `{}` placeholders that are filled in order.

use vstd::prelude::*;
use crate::text::{first_at, occurs_in};

verus! {

/// The placeholder that a template holds for each argument: `{}`.
pub open spec fn placeholder() -> Seq<char> {
    seq!['{', '}']
}

/// `fmt` with its first placeholder replaced by `arg`; `fmt` itself where it
/// holds no placeholder.
pub open spec fn fill_first(fmt: Seq<char>, arg: Seq<char>) -> Seq<char> {
    if occurs_in(fmt, placeholder()) {
        let i = choose|i: int| first_at(fmt, placeholder(), i);
        fmt.subrange(0, i) + arg + fmt.subrange(i + 2, fmt.len() as int)
    } else {
        fmt
    }
}

/// `fmt` after each of `args` in turn has replaced the first placeholder of
/// the text built so far. An argument that itself holds a placeholder offers
/// it to the arguments that follow.
pub open spec fn fill_all(fmt: Seq<char>, args: Seq<Seq<char>>) -> Seq<char>
    decreases args.len(),
{
    if args.len() == 0 {
        fmt
    } else {
        fill_first(fill_all(fmt, args.drop_last()), args.last())
    }
}

/// The texts that `args` hold.
pub open spec fn texts(args: Seq<String>) -> Seq<Seq<char>> {
    Seq::new(args.len(), |i: int| args[i]@)
}

/// Calls `string_format::string_format`, which looks for the first `{}` of its
/// first argument and replaces it by its second argument, or hands the first
/// argument back where it holds no `{}`.
#[verifier::external_body]
fn fill_placeholder(fmt: &str, arg: &str) -> (out: String)
    ensures
        out@ == fill_first(fmt@, arg@),
{
    string_format::string_format(fmt.to_string(), arg.to_string())
}

/// Fills the placeholders of `fmt` with `args`, first to last.
pub fn format_template(fmt: &str, args: &Vec<String>) -> (out: String)
    ensures
        out@ == fill_all(fmt@, texts(args@)),
{
    let mut out = fmt.to_owned();
    let mut i: usize = 0;
    while i < args.len()
        invariant
            i <= args.len(),
            out@ == fill_all(fmt@, texts(args@).take(i as int)),
        decreases args.len() - i,
    {
        let next = fill_placeholder(out.as_str(), args[i].as_str());
        proof {
            let upto = texts(args@).take(i + 1);
            assert(upto.drop_last() == texts(args@).take(i as int));
            assert(upto.last() == args@[i as int]@);
        }
        out = next;
        i += 1;
    }
    assert(texts(args@).take(args@.len() as int) == texts(args@));
    out
}

} // verus!
