//! Home page blocks as the settings form edits them: one block per line,
//! `title | body | link | link label`.
use vstd::prelude::*;
use crate::form_fields::{refused_with, spec_lines, lines};
use crate::model::{WebError, bad_request};
use crate::settings::HomepageBlock;
use crate::text::{
    append_str, nonempty, opt_view, spec_nonempty, split, split_all, strings_view, trim,
    trimmed,
};

verus! {

/// Title, body, link and link label.
pub type BlockView = (Seq<char>, Seq<char>, Option<Seq<char>>, Option<Seq<char>>);

impl View for HomepageBlock {
    type V = BlockView;

    open spec fn view(&self) -> BlockView {
        (self.title@, self.body@, opt_view(self.href), opt_view(self.link_label))
    }
}

pub open spec fn blocks_view(v: Seq<HomepageBlock>) -> Seq<BlockView> {
    v.map_values(|b: HomepageBlock| b@)
}

/// Piece `i` of `parts`, or nothing when there are fewer pieces.
pub open spec fn piece(parts: Seq<Seq<char>>, i: int) -> Seq<char> {
    if 0 <= i < parts.len() {
        parts[i]
    } else {
        Seq::empty()
    }
}

/// The block a line describes: trimmed title and body, both required, and the
/// link and label when they are not blank. Pieces after the fourth are ignored.
pub open spec fn spec_block_from_line(line: Seq<char>) -> Option<BlockView> {
    let parts = split(line, '|');
    let title = trim(piece(parts, 0));
    let body = trim(piece(parts, 1));
    if title.len() == 0 || body.len() == 0 {
        None
    } else {
        Some(
            (
                title,
                body,
                if parts.len() > 2 {
                    spec_nonempty(Some(parts[2]))
                } else {
                    None
                },
                if parts.len() > 3 {
                    spec_nonempty(Some(parts[3]))
                } else {
                    None
                },
            ),
        )
    }
}

/// The blocks of the given lines; `None` when some line lacks a title or body.
pub open spec fn spec_blocks(ls: Seq<Seq<char>>) -> Option<Seq<BlockView>>
    decreases ls.len(),
{
    if ls.len() == 0 {
        Some(Seq::empty())
    } else {
        match spec_blocks(ls.drop_last()) {
            None => None,
            Some(bs) => match spec_block_from_line(ls.last()) {
                None => None,
                Some(b) => Some(bs.push(b)),
            },
        }
    }
}

proof fn lemma_blocks_error_sticks(ls: Seq<Seq<char>>, i: int)
    requires
        0 <= i <= ls.len(),
        spec_blocks(ls.take(i)) is None,
    ensures
        spec_blocks(ls) is None,
    decreases ls.len() - i,
{
    if i < ls.len() {
        assert(ls.take(i + 1).drop_last() == ls.take(i));
        lemma_blocks_error_sticks(ls, i + 1);
    } else {
        assert(ls.take(i) == ls);
    }
}

fn block_from_line(line: &str) -> (r: Option<HomepageBlock>)
    ensures
        match spec_block_from_line(line@) {
            Some(b) => r matches Some(x) && x@ == b,
            None => r is None,
        },
{
    let parts = split_all(line, '|');
    proof {
        crate::text::lemma_split_nonempty(line@, '|');
    }
    let title = trimmed(parts[0].as_str());
    let body = if parts.len() > 1 {
        trimmed(parts[1].as_str())
    } else {
        proof {
            reveal_strlit("");
        }
        trimmed("")
    };
    if title.as_str().is_empty() || body.as_str().is_empty() {
        return None;
    }
    let href = if parts.len() > 2 {
        nonempty(Some(parts[2].as_str()))
    } else {
        None
    };
    let link_label = if parts.len() > 3 {
        nonempty(Some(parts[3].as_str()))
    } else {
        None
    };
    Some(HomepageBlock { title, body, href, link_label })
}

/// Reads the home page blocks of the settings form, one per non-blank line.
pub fn parse_homepage_blocks(input: Option<&str>) -> (r: Result<Vec<HomepageBlock>, WebError>)
    ensures
        match spec_blocks(spec_lines(crate::text::opt_str_view(input))) {
            Some(bs) => r matches Ok(v) && blocks_view(v@) == bs,
            None => refused_with(r, "homepage blocks require title and body"@),
        },
{
    let ls = lines(input);
    let ghost all = spec_lines(crate::text::opt_str_view(input));
    let mut out: Vec<HomepageBlock> = Vec::new();
    let mut i: usize = 0;
    while i < ls.len()
        invariant
            i <= ls.len(),
            strings_view(ls@) == all,
            all == spec_lines(crate::text::opt_str_view(input)),
            spec_blocks(all.take(i as int)) == Some(blocks_view(out@)),
        decreases ls.len() - i,
    {
        assert(all.take(i + 1).drop_last() == all.take(i as int));
        assert(all.take(i + 1).last() == ls@[i as int]@);
        match block_from_line(ls[i].as_str()) {
            Some(b) => {
                let ghost before = out@;
                out.push(b);
                assert(blocks_view(out@) == blocks_view(before).push(b@));
            },
            None => {
                proof {
                    lemma_blocks_error_sticks(all, i + 1);
                }
                return Err(bad_request("homepage blocks require title and body"));
            },
        }
        i += 1;
    }
    assert(all.take(ls.len() as int) == all);
    Ok(out)
}

pub open spec fn or_empty(o: Option<Seq<char>>) -> Seq<char> {
    match o {
        Some(s) => s,
        None => Seq::empty(),
    }
}

/// The form line of a block: its four fields joined by `" | "`, blank where absent.
pub open spec fn spec_block_line(b: BlockView) -> Seq<char> {
    b.0 + " | "@ + b.1 + " | "@ + or_empty(b.2) + " | "@ + or_empty(b.3)
}

/// Lines joined by new lines.
pub open spec fn spec_join_lines(ls: Seq<Seq<char>>) -> Seq<char>
    decreases ls.len(),
{
    if ls.len() == 0 {
        Seq::empty()
    } else if ls.len() == 1 {
        ls[0]
    } else {
        spec_join_lines(ls.drop_last()) + seq!['\n'] + ls.last()
    }
}

pub open spec fn spec_blocks_for_form(bs: Seq<BlockView>) -> Seq<char> {
    spec_join_lines(bs.map_values(|b: BlockView| spec_block_line(b)))
}

fn append_opt(s: &mut String, o: &Option<String>)
    ensures
        final(s)@ == old(s)@ + or_empty(opt_view(*o)),
{
    match o {
        Some(t) => append_str(s, t.as_str()),
        None => {
            assert(old(s)@ + Seq::<char>::empty() == old(s)@);
        },
    }
}

/// The text the settings form shows for the home page blocks.
pub fn homepage_blocks_for_form(blocks: &Vec<HomepageBlock>) -> (r: String)
    ensures
        r@ == spec_blocks_for_form(blocks_view(blocks@)),
{
    let ghost ls = blocks_view(blocks@).map_values(|b: BlockView| spec_block_line(b));
    let mut out = String::new();
    let mut i: usize = 0;
    proof {
        reveal_strlit(" | ");
        reveal_strlit("\n");
    }
    while i < blocks.len()
        invariant
            i <= blocks.len(),
            ls == blocks_view(blocks@).map_values(|b: BlockView| spec_block_line(b)),
            " | "@ == seq![' ', '|', ' '],
            "\n"@ == seq!['\n'],
            out@ == spec_join_lines(ls.take(i as int)),
        decreases blocks.len() - i,
    {
        let ghost before = out@;
        if i > 0 {
            append_str(&mut out, "\n");
        }
        let b = &blocks[i];
        append_str(&mut out, b.title.as_str());
        append_str(&mut out, " | ");
        append_str(&mut out, b.body.as_str());
        append_str(&mut out, " | ");
        append_opt(&mut out, &b.href);
        append_str(&mut out, " | ");
        append_opt(&mut out, &b.link_label);
        proof {
            let line = spec_block_line(b@);
            assert(ls[i as int] == line);
            assert(ls.take(i + 1).drop_last() == ls.take(i as int));
            assert(ls.take(i + 1).last() == line);
            if i == 0 {
                assert(ls.take(1)[0] == line);
                assert(out@ =~= line);
            } else {
                assert(out@ =~= before + seq!['\n'] + line);
            }
        }
        i += 1;
    }
    assert(ls.take(blocks.len() as int) == ls);
    out
}

} // verus!

verus! {

/// A field that reads back unchanged: not blank, no surrounding white space,
/// and none of the separators `|` and new line.
pub open spec fn field_ok(s: Seq<char>) -> bool {
    &&& s.len() > 0
    &&& !crate::text::is_ws(s[0])
    &&& !crate::text::is_ws(s.last())
    &&& !s.contains('|')
    &&& !s.contains('\n')
}

pub open spec fn opt_field_ok(o: Option<Seq<char>>) -> bool {
    match o {
        Some(s) => field_ok(s),
        None => true,
    }
}

pub open spec fn block_ok(b: BlockView) -> bool {
    field_ok(b.0) && field_ok(b.1) && opt_field_ok(b.2) && opt_field_ok(b.3)
}

proof fn lemma_split_no_sep(x: Seq<char>, sep: char)
    requires
        !x.contains(sep),
    ensures
        split(x, sep) == seq![x],
    decreases x.len(),
{
    if x.len() > 0 {
        let y = x.drop_last();
        assert(!y.contains(sep)) by {
            if y.contains(sep) {
                let k = choose|k: int| 0 <= k < y.len() && y[k] == sep;
                assert(x[k] == sep);
            }
        }
        lemma_split_no_sep(y, sep);
        assert(x.last() != sep) by {
            assert(x[x.len() - 1] == x.last());
        }
        assert(y.push(x.last()) == x);
    } else {
        assert(x == Seq::<char>::empty());
    }
}

proof fn lemma_split_concat(a: Seq<char>, b: Seq<char>, sep: char)
    ensures
        split(a + seq![sep] + b, sep) == split(a, sep) + split(b, sep),
    decreases b.len(),
{
    let whole = a + seq![sep] + b;
    crate::text::lemma_split_nonempty(a, sep);
    if b.len() == 0 {
        assert(whole.drop_last() == a);
        assert(whole.last() == sep);
        assert(split(a, sep).push(Seq::<char>::empty()) == split(a, sep) + seq![Seq::<char>::empty()]);
    } else {
        let b2 = b.drop_last();
        lemma_split_concat(a, b2, sep);
        crate::text::lemma_split_nonempty(b2, sep);
        assert(whole.drop_last() == a + seq![sep] + b2);
        assert(whole.last() == b.last());
        let r = split(a, sep) + split(b2, sep);
        if b.last() == sep {
            assert(r.push(Seq::<char>::empty()) == split(a, sep) + split(b2, sep).push(
                Seq::<char>::empty(),
            ));
        } else {
            let s2 = split(b2, sep);
            assert(r.last() == s2.last());
            assert(r.update(r.len() - 1, r.last().push(b.last())) == split(a, sep) + s2.update(
                s2.len() - 1,
                s2.last().push(b.last()),
            ));
        }
    }
}

pub open spec fn clean(x: Seq<char>) -> bool {
    x.len() == 0 || (!crate::text::is_ws(x[0]) && !crate::text::is_ws(x.last()))
}

proof fn lemma_trim_clean(x: Seq<char>)
    requires
        clean(x),
    ensures
        trim(x) == x,
        trim(seq![' '] + x + seq![' ']) == x,
        trim(x + seq![' ']) == x,
        trim(seq![' '] + x) == x,
{
    let sp = seq![' '];
    assert(crate::text::is_ws(' '));
    assert(crate::text::trim_start(x) == x);
    assert(crate::text::trim_end(x) == x);
    let a = sp + x + sp;
    assert(a.drop_first() == x + sp);
    let b = x + sp;
    assert(b.drop_last() == x);
    let c = sp + x;
    assert(c.drop_first() == x);
    if x.len() == 0 {
        assert(b == sp);
        assert(sp.drop_first() == Seq::<char>::empty());
        assert(crate::text::trim_start(b) == Seq::<char>::empty());
        assert(crate::text::trim_start(a) == Seq::<char>::empty());
        assert(c == sp);
        assert(crate::text::trim_start(c) == Seq::<char>::empty());
        assert(crate::text::trim_end(b) == crate::text::trim_end(x));
    } else {
        assert(b[0] == x[0]);
        assert(crate::text::trim_start(b) == b);
        assert(crate::text::trim_start(a) == b);
        assert(crate::text::trim_end(b) == crate::text::trim_end(x));
        assert(crate::text::trim_start(c) == x);
    }
}

proof fn lemma_no_sep_concat(a: Seq<char>, b: Seq<char>, sep: char)
    requires
        !a.contains(sep),
        !b.contains(sep),
    ensures
        !(a + b).contains(sep),
{
    if (a + b).contains(sep) {
        let k = choose|k: int| 0 <= k < (a + b).len() && (a + b)[k] == sep;
        if k < a.len() {
            assert(a[k] == sep);
        } else {
            assert(b[k - a.len()] == sep);
        }
    }
}

proof fn lemma_block_line_reads_back(b: BlockView)
    requires
        block_ok(b),
    ensures
        trim(spec_block_line(b)).len() > 0,
        spec_block_from_line(trim(spec_block_line(b))) == Some(b),
        !spec_block_line(b).contains('\n'),
{
    reveal_strlit(" | ");
    let sp = seq![' '];
    let bar = seq!['|'];
    let t = b.0;
    let bo = b.1;
    let h = or_empty(b.2);
    let l = or_empty(b.3);
    assert(!sp.contains('|') && !sp.contains('\n'));
    assert(!Seq::<char>::empty().contains('|') && !Seq::<char>::empty().contains('\n'));
    let p0 = t + sp;
    let p1 = sp + bo + sp;
    let p2 = sp + h + sp;
    let p3 = if l.len() == 0 {
        Seq::<char>::empty()
    } else {
        sp + l
    };
    let line = spec_block_line(b);
    assert(line =~= p0 + bar + p1 + bar + p2 + bar + (sp + l));
    let tl = p0 + bar + p1 + bar + p2 + bar + p3;
    // the trimmed line
    assert(crate::text::trim_start(line) == line) by {
        assert(line[0] == t[0]);
    }
    if l.len() == 0 {
        assert(line.last() == ' ');
        assert(line.drop_last() =~= tl);
        assert(tl.last() == '|');
        assert(crate::text::trim_end(tl) == tl);
        assert(crate::text::trim_end(line) == tl);
    } else {
        assert(line.last() == l.last());
        assert(line =~= tl);
        assert(crate::text::trim_end(line) == line);
    }
    assert(trim(line) == tl);
    assert(tl.len() > 0);
    // no separators inside the pieces
    lemma_no_sep_concat(t, sp, '|');
    lemma_no_sep_concat(sp, bo, '|');
    lemma_no_sep_concat(sp + bo, sp, '|');
    lemma_no_sep_concat(sp, h, '|');
    lemma_no_sep_concat(sp + h, sp, '|');
    if l.len() > 0 {
        lemma_no_sep_concat(sp, l, '|');
    }
    lemma_split_no_sep(p0, '|');
    lemma_split_no_sep(p1, '|');
    lemma_split_no_sep(p2, '|');
    lemma_split_no_sep(p3, '|');
    lemma_split_concat(p0 + bar + p1 + bar + p2, p3, '|');
    lemma_split_concat(p0 + bar + p1, p2, '|');
    lemma_split_concat(p0, p1, '|');
    let parts = split(tl, '|');
    assert(parts =~= seq![p0, p1, p2, p3]);
    // the trimmed pieces
    lemma_trim_clean(t);
    lemma_trim_clean(bo);
    lemma_trim_clean(h);
    lemma_trim_clean(l);
    assert(piece(parts, 0) == p0);
    assert(piece(parts, 1) == p1);
    assert(trim(p0) == t);
    assert(trim(p1) == bo);
    assert(spec_nonempty(Some(p2)) == b.2);
    if l.len() == 0 {
        assert(trim(p3) == Seq::<char>::empty()) by {
            assert(crate::text::trim_start(Seq::<char>::empty()) == Seq::<char>::empty());
        }
    }
    assert(spec_nonempty(Some(p3)) == b.3);
    // no new line in the line
    lemma_no_sep_concat(t, sp, '\n');
    lemma_no_sep_concat(p0, bar, '\n');
    lemma_no_sep_concat(sp, bo, '\n');
    lemma_no_sep_concat(sp + bo, sp, '\n');
    lemma_no_sep_concat(p0 + bar, p1, '\n');
    lemma_no_sep_concat(p0 + bar + p1, bar, '\n');
    lemma_no_sep_concat(sp, h, '\n');
    lemma_no_sep_concat(sp + h, sp, '\n');
    lemma_no_sep_concat(p0 + bar + p1 + bar, p2, '\n');
    lemma_no_sep_concat(p0 + bar + p1 + bar + p2, bar, '\n');
    lemma_no_sep_concat(sp, l, '\n');
    lemma_no_sep_concat(p0 + bar + p1 + bar + p2 + bar, sp + l, '\n');
}

pub proof fn lemma_split_join(ls: Seq<Seq<char>>)
    requires
        ls.len() >= 1,
        forall|i: int| 0 <= i < ls.len() ==> !(#[trigger] ls[i]).contains('\n'),
    ensures
        split(spec_join_lines(ls), '\n') == ls,
    decreases ls.len(),
{
    if ls.len() == 1 {
        lemma_split_no_sep(ls[0], '\n');
        assert(seq![ls[0]] == ls);
    } else {
        let init = ls.drop_last();
        lemma_split_join(init);
        lemma_split_no_sep(ls.last(), '\n');
        lemma_split_concat(spec_join_lines(init), ls.last(), '\n');
        assert(init + seq![ls.last()] == ls);
    }
}

pub proof fn lemma_trimmed_nonempty_all(ls: Seq<Seq<char>>)
    requires
        forall|i: int| 0 <= i < ls.len() ==> trim(#[trigger] ls[i]).len() > 0,
    ensures
        crate::text::trimmed_nonempty(ls) == ls.map_values(|l: Seq<char>| trim(l)),
    decreases ls.len(),
{
    if ls.len() > 0 {
        lemma_trimmed_nonempty_all(ls.drop_last());
        assert(trim(ls[ls.len() - 1]).len() > 0);
        assert(ls.map_values(|l: Seq<char>| trim(l)) =~= ls.drop_last().map_values(
            |l: Seq<char>| trim(l),
        ).push(trim(ls.last())));
    }
}

proof fn lemma_blocks_read_back(bs: Seq<BlockView>)
    requires
        forall|i: int| 0 <= i < bs.len() ==> block_ok(#[trigger] bs[i]),
    ensures
        spec_blocks(
            bs.map_values(|b: BlockView| spec_block_line(b)).map_values(|l: Seq<char>| trim(l)),
        ) == Some(bs),
    decreases bs.len(),
{
    if bs.len() > 0 {
        let init = bs.drop_last();
        lemma_blocks_read_back(init);
        let ls = bs.map_values(|b: BlockView| spec_block_line(b)).map_values(
            |l: Seq<char>| trim(l),
        );
        let ls2 = init.map_values(|b: BlockView| spec_block_line(b)).map_values(
            |l: Seq<char>| trim(l),
        );
        assert(ls.drop_last() =~= ls2);
        assert(block_ok(bs[bs.len() - 1]));
        lemma_block_line_reads_back(bs.last());
        assert(ls.last() == trim(spec_block_line(bs.last())));
        assert(init.push(bs.last()) =~= bs);
    }
}

/// Reading back the text that the settings form shows for the home page blocks
/// gives the same blocks, for blocks whose fields are not blank, carry no
/// surrounding white space and contain neither `|` nor a new line.
pub proof fn law_homepage_blocks_round_trip(bs: Seq<BlockView>)
    requires
        forall|i: int| 0 <= i < bs.len() ==> block_ok(#[trigger] bs[i]),
    ensures
        spec_blocks(spec_lines(Some(spec_blocks_for_form(bs)))) == Some(bs),
{
    let ls = bs.map_values(|b: BlockView| spec_block_line(b));
    if bs.len() == 0 {
        assert(ls.len() == 0);
        assert(spec_blocks_for_form(bs) == Seq::<char>::empty());
        assert(split(Seq::<char>::empty(), '\n') == seq![Seq::<char>::empty()]);
        let e = seq![Seq::<char>::empty()];
        assert(e.drop_last() =~= Seq::<Seq<char>>::empty());
        assert(trim(Seq::<char>::empty()) == Seq::<char>::empty()) by {
            assert(crate::text::trim_start(Seq::<char>::empty()) == Seq::<char>::empty());
        }
        assert(e.last() == Seq::<char>::empty());
        assert(crate::text::trimmed_nonempty(e.drop_last()) == Seq::<Seq<char>>::empty());
        assert(crate::text::trimmed_nonempty(e) == Seq::<Seq<char>>::empty());
    } else {
        assert forall|i: int| 0 <= i < ls.len() implies !(#[trigger] ls[i]).contains('\n') && trim(
            ls[i],
        ).len() > 0 by {
            assert(block_ok(bs[i]));
            lemma_block_line_reads_back(bs[i]);
        }
        lemma_split_join(ls);
        lemma_trimmed_nonempty_all(ls);
        lemma_blocks_read_back(bs);
    }
}

} // verus!
