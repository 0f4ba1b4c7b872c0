use vstd::prelude::*;

verus! {

/// Width of a tab stop, in rendered columns.
pub const KILO_TAB: usize = 8;

/// The rendered column reached from rendered column `rx` by one character:
/// a tab moves to the next multiple of the tab width, any other character
/// moves one column.
pub open spec fn advance(rx: nat, c: char) -> nat {
    if c == '\t' {
        (rx + (KILO_TAB - 1) - (rx % (KILO_TAB as nat)) + 1) as nat
    } else {
        rx + 1
    }
}

/// The rendered column of logical column `cx` of `line`: the columns that the
/// characters before it take up; positions past the end add nothing.
pub open spec fn rx_of(line: Seq<char>, cx: nat) -> nat
    decreases cx,
{
    if cx == 0 {
        0
    } else if cx - 1 < line.len() {
        advance(rx_of(line, (cx - 1) as nat), line[cx - 1])
    } else {
        rx_of(line, (cx - 1) as nat)
    }
}

/// What one character shows as when the display so far is `w` columns wide:
/// a tab as spaces up to the next tab stop, any other character as itself.
pub open spec fn render_char(w: nat, c: char) -> Seq<char> {
    if c == '\t' {
        Seq::new((KILO_TAB - w % (KILO_TAB as nat)) as nat, |i: int| ' ')
    } else {
        seq![c]
    }
}

/// The displayed form of a line: each character rendered in turn.
pub open spec fn render_of(line: Seq<char>) -> Seq<char>
    decreases line.len(),
{
    if line.len() == 0 {
        Seq::empty()
    } else {
        let r = render_of(line.drop_last());
        r + render_char(r.len(), line.last())
    }
}

/// The displayed form of the characters before logical column `cx` is
/// exactly as wide as the rendered column of `cx`: the cursor and the text
/// on screen agree.
pub proof fn lemma_render_width(line: Seq<char>, cx: nat)
    requires
        cx <= line.len(),
    ensures
        render_of(line.subrange(0, cx as int)).len() == rx_of(line, cx),
    decreases cx,
{
    if cx > 0 {
        lemma_render_width(line, (cx - 1) as nat);
        assert(line.subrange(0, cx as int).drop_last() =~= line.subrange(0, cx - 1));
    }
}

/// The rendered column never exceeds the tab width times the logical column.
pub proof fn lemma_rx_bound(line: Seq<char>, cx: nat)
    ensures
        rx_of(line, cx) <= KILO_TAB * cx,
        rx_of(line, cx) <= KILO_TAB * line.len(),
    decreases cx,
{
    if cx > 0 {
        lemma_rx_bound(line, (cx - 1) as nat);
        let r = rx_of(line, (cx - 1) as nat);
        assert(r + (KILO_TAB - 1) - (r % (KILO_TAB as nat)) + 1 <= r + KILO_TAB) by (nonlinear_arith);
        if cx - 1 < line.len() {
        }
    }
}

/// On a line without tabs, every logical column up to the end is its own
/// rendered column.
pub proof fn lemma_no_tabs_identity(line: Seq<char>, cx: nat)
    requires
        forall|i: int| 0 <= i < line.len() ==> line[i] != '\t',
        cx <= line.len(),
    ensures
        rx_of(line, cx) == cx,
    decreases cx,
{
    if cx > 0 {
        lemma_no_tabs_identity(line, (cx - 1) as nat);
    }
}

/// A tab advances the rendered column to the next multiple of the tab width,
/// whatever column it starts from.
pub proof fn lemma_tab_to_next_stop(line: Seq<char>, cx: nat)
    requires
        cx < line.len(),
        line[cx as int] == '\t',
    ensures
        rx_of(line, cx + 1) == (rx_of(line, cx) / (KILO_TAB as nat) + 1) * KILO_TAB,
        rx_of(line, cx + 1) % (KILO_TAB as nat) == 0,
        rx_of(line, cx) < rx_of(line, cx + 1) <= rx_of(line, cx) + KILO_TAB,
{
    let r = rx_of(line, cx);
    assert(rx_of(line, cx + 1) == advance(r, '\t'));
    assert(r + 7 - r % 8 + 1 == (r / 8 + 1) * 8) by (nonlinear_arith);
    assert(((r / 8 + 1) * 8) % 8 == 0) by (nonlinear_arith);
}

/// The rendered column of `cx` within `line`, expanding each tab to the next
/// tab stop.
pub fn logical_to_rendered(line: &String, cx: usize) -> (r: usize)
    requires
        KILO_TAB * line@.len() <= usize::MAX,
    ensures
        r == rx_of(line@, cx as nat),
{
    let len = line.as_str().unicode_len();
    let mut rx: usize = 0;
    let mut j: usize = 0;
    while j < cx
        invariant
            j <= cx,
            len == line@.len(),
            KILO_TAB * line@.len() <= usize::MAX,
            rx == rx_of(line@, j as nat),
        decreases cx - j,
    {
        proof {
            lemma_rx_bound(line@, j as nat);
            lemma_rx_bound(line@, (j + 1) as nat);
        }
        if j < len {
            let c = line.as_str().get_char(j);
            if c == '\t' {
                rx += (KILO_TAB - 1) - (rx % KILO_TAB);
            }
            rx += 1;
        }
        j += 1;
    }
    rx
}

/// The displayed form of `line`, each tab replaced by a full tab width of
/// spaces.
pub fn render_row(line: &String) -> (r: String)
    requires
        KILO_TAB * line@.len() <= usize::MAX,
    ensures
        r@ == render_of(line@),
{
    let len = line.as_str().unicode_len();
    let mut out = String::new();
    let mut w: usize = 0;
    let mut j: usize = 0;
    while j < len
        invariant
            j <= len,
            len == line@.len(),
            KILO_TAB * line@.len() <= usize::MAX,
            w == out@.len(),
            out@ == render_of(line@.subrange(0, j as int)),
        decreases len - j,
    {
        let c = line.as_str().get_char(j);
        proof {
            assert(line@.subrange(0, j + 1).drop_last() =~= line@.subrange(0, j as int));
            lemma_render_width(line@, j as nat);
            lemma_render_width(line@, (j + 1) as nat);
            lemma_rx_bound(line@, (j + 1) as nat);
        }
        if c == '\t' {
            let mut k: usize = KILO_TAB - w % KILO_TAB;
            let ghost before = out@;
            while k > 0
                invariant
                    k <= KILO_TAB - w % KILO_TAB,
                    out@ == before + Seq::new((KILO_TAB - w % KILO_TAB - k) as nat, |i: int| ' '),
                decreases k,
            {
                proof {
                    reveal_strlit(" ");
                }
                out.append(" ");
                k -= 1;
                assert(out@ =~= before + Seq::new((KILO_TAB - w % KILO_TAB - k) as nat, |i: int| ' '));
            }
            assert(out@ =~= before + render_char(w as nat, c));
            w = w + (KILO_TAB - w % KILO_TAB);
        } else {
            let one = line.as_str().substring_char(j, j + 1);
            proof {
                assert(one@ =~= render_char(w as nat, c));
            }
            out.append(one);
            w = w + 1;
        }
        j += 1;
    }
    proof {
        assert(line@.subrange(0, len as int) =~= line@);
    }
    out
}

} // verus!
