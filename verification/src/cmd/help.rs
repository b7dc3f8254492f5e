use vstd::prelude::*;

use crate::cmd::Command;
use crate::numfmt::{dec_digits, push_digits};

verus! {

/// The registry entry for the help command.
pub fn command() -> (r: Command)
    ensures
        r.name@ == "help"@,
        r.alias@.len() == 0,
        r.help@ == "Show help for certain command"@,
{
    Command { name: "help", alias: Vec::new(), help: "Show help for certain command" }
}

/// How many pages a list of `total` commands fills at `page_size` commands a
/// page.
pub open spec fn page_count(total: nat, page_size: nat) -> nat
    recommends
        page_size > 0,
{
    ((total + page_size - 1) as nat) / page_size
}

/// `n` spaces.
pub open spec fn spaces(n: nat) -> Seq<char>
    decreases n,
{
    if n == 0 {
        Seq::empty()
    } else {
        spaces((n - 1) as nat).push(' ')
    }
}

/// The widest name among the first `k` commands of a non-empty page.
pub open spec fn name_width(cmds: Seq<Command>, k: int) -> nat
    recommends
        1 <= k <= cmds.len(),
    decreases k,
{
    if k <= 1 {
        cmds[0].name@.len()
    } else {
        let rest = name_width(cmds, k - 1);
        if cmds[k - 1].name@.len() > rest {
            cmds[k - 1].name@.len()
        } else {
            rest
        }
    }
}

/// One help line: the name padded to `w`, a separator, the help text.
pub open spec fn help_line(c: Command, w: nat) -> Seq<char> {
    c.name@ + spaces((w - c.name@.len()) as nat) + " >> "@ + c.help@ + "\n"@
}

/// The help lines of the first `k` commands of a page, in order.
pub open spec fn help_lines(cmds: Seq<Command>, w: nat, k: int) -> Seq<char>
    decreases k,
{
    if k <= 0 {
        Seq::empty()
    } else {
        help_lines(cmds, w, k - 1) + help_line(cmds[k - 1], w)
    }
}

/// One rendered help page: a numbered banner, a line per command on the
/// page, and a usage footer.
pub open spec fn spec_help_page(list: Seq<Command>, page: nat, page_size: nat) -> Seq<char>
    recommends
        page_size > 0,
        1 <= page <= page_count(list.len(), page_size),
{
    let total = list.len();
    let hi = if page * page_size < total {
        page * page_size
    } else {
        total
    };
    let slice = list.subrange(((page - 1) * page_size) as int, hi as int);
    let w = name_width(slice, slice.len() as int);
    "===== Page "@ + dec_digits(page) + "/"@ + dec_digits(page_count(total, page_size))
        + " =====\n"@ + help_lines(slice, w, slice.len() as int)
        + "Use `<command> -h` for more details"@
}

/// The reply for a page number past the last page.
pub open spec fn spec_page_out_of_range(page: nat, count: nat) -> Seq<char> {
    "Page out of range "@ + dec_digits(page) + "/"@ + dec_digits(count)
}

/// Renders the help command's reply: the requested page of the command list,
/// or the out-of-range reply when the page number is past the last page.
pub fn help_reply(list: &Vec<Command>, page: u8, page_size: u8) -> (r: String)
    requires
        page >= 1,
        page_size >= 1,
        list@.len() + page_size < usize::MAX,
    ensures
        page as nat > page_count(list@.len(), page_size as nat) ==> r@ == spec_page_out_of_range(
            page as nat,
            page_count(list@.len(), page_size as nat),
        ),
        page as nat <= page_count(list@.len(), page_size as nat) ==> r@ == spec_help_page(
            list@,
            page as nat,
            page_size as nat,
        ),
{
    let total = list.len();
    let ps = page_size as usize;
    let p = page as usize;
    let count = (total + ps - 1) / ps;
    assert(count == page_count(list@.len(), page_size as nat));
    if p > count {
        let mut s = String::from_str("Page out of range ");
        push_digits(p as u64, &mut s);
        s.append("/");
        push_digits(count as u64, &mut s);
        proof {
            assert(s@ =~= spec_page_out_of_range(page as nat, count as nat));
        }
        return s;
    }
    proof {
        assert((p - 1) * ps < total && p * ps == (p - 1) * ps + ps && p * ps < total
            + ps) by (nonlinear_arith)
            requires
                ps >= 1,
                1 <= p <= count,
                count == ((total + ps - 1) as int) / (ps as int),
                total + ps < usize::MAX,
        ;
    }
    let lo = (p - 1) * ps;
    let hi = if p * ps < total {
        p * ps
    } else {
        total
    };
    let ghost slice = list@.subrange(lo as int, hi as int);
    assert(slice.len() >= 1);

    let mut w: usize = list[lo].name.unicode_len();
    let mut k: usize = 1;
    while lo + k < hi
        invariant
            1 <= k <= slice.len(),
            lo + slice.len() == hi <= list@.len(),
            slice == list@.subrange(lo as int, hi as int),
            w == name_width(slice, k as int),
        decreases hi - lo - k,
    {
        let len = list[lo + k].name.unicode_len();
        if len > w {
            w = len;
        }
        k = k + 1;
    }
    assert(w == name_width(slice, slice.len() as int));

    let mut s = String::from_str("===== Page ");
    push_digits(p as u64, &mut s);
    s.append("/");
    push_digits(count as u64, &mut s);
    s.append(" =====\n");
    let ghost header = s@;

    let mut k: usize = 0;
    while k < hi - lo
        invariant
            k <= slice.len(),
            lo + slice.len() == hi <= list@.len(),
            slice == list@.subrange(lo as int, hi as int),
            w == name_width(slice, slice.len() as int),
            s@ == header + help_lines(slice, w as nat, k as int),
        decreases hi - lo - k,
    {
        let c = &list[lo + k];
        let name_len = c.name.unicode_len();
        proof {
            lemma_name_fits(slice, k as int, w as nat);
        }
        s.append(c.name);
        let mut pad: usize = 0;
        while pad < w - name_len
            invariant
                pad <= w - name_len <= w,
                name_len == c.name@.len(),
                s@ == header + help_lines(slice, w as nat, k as int) + c.name@ + spaces(
                    pad as nat,
                ),
            decreases w - name_len - pad,
        {
            s.append(" ");
            proof {
                reveal_strlit(" ");
                assert(s@ =~= header + help_lines(slice, w as nat, k as int) + c.name@ + spaces(
                    (pad + 1) as nat,
                ));
            }
            pad = pad + 1;
        }
        s.append(" >> ");
        s.append(c.help);
        s.append("\n");
        proof {
            assert(s@ =~= header + help_lines(slice, w as nat, k as int + 1));
        }
        k = k + 1;
    }
    s.append("Use `<command> -h` for more details");
    proof {
        assert(s@ =~= spec_help_page(list@, page as nat, page_size as nat));
    }
    s
}

/// Every name on a non-empty page fits in the page's name width.
proof fn lemma_name_fits(slice: Seq<Command>, k: int, w: nat)
    requires
        0 <= k < slice.len(),
        w == name_width(slice, slice.len() as int),
    ensures
        slice[k].name@.len() <= w,
{
    lemma_width_monotone(slice, k + 1, slice.len() as int);
}

/// The name width over a longer prefix is no smaller, and bounds each name
/// the prefix holds.
proof fn lemma_width_monotone(slice: Seq<Command>, k: int, n: int)
    requires
        1 <= k <= n <= slice.len(),
    ensures
        slice[k - 1].name@.len() <= name_width(slice, n),
    decreases n,
{
    if n > k {
        lemma_width_monotone(slice, k, n - 1);
    }
}

} // verus!
