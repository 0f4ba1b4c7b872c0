use vstd::prelude::*;

verus! {

/// The line shown in the middle of an empty buffer.
pub const WELCOME: &'static str = "Kilo editor -- version 0.1.0";

/// The decimal digit character of `d`, for `d < 10`.
pub open spec fn digit_char(d: nat) -> char {
    ((d + 0x30) as u32) as char
}

/// The decimal spelling of `n`, without leading zeros.
pub open spec fn dec(n: nat) -> Seq<char>
    decreases n,
{
    if n < 10 {
        seq![digit_char(n)]
    } else {
        dec(n / 10) + seq![digit_char(n % 10)]
    }
}

/// `k` spaces.
pub open spec fn spaces(k: nat) -> Seq<char> {
    Seq::new(k, |i: int| ' ')
}

/// The part of a displayed line between rendered columns `off` and
/// `off + width`, cut short at the line's end.
pub open spec fn clip(line: Seq<char>, off: nat, width: nat) -> Seq<char> {
    let len = line.len();
    let start = if off < len { off } else { len };
    let end = if off + width < len { off + width } else { len };
    line.subrange(start as int, end as int)
}

/// The single-character string for digit `d`.
fn digit_str(d: usize) -> (r: &'static str)
    requires
        d < 10,
    ensures
        r@ == seq![digit_char(d as nat)],
{
    proof {
        reveal_strlit("0");
        reveal_strlit("1");
        reveal_strlit("2");
        reveal_strlit("3");
        reveal_strlit("4");
        reveal_strlit("5");
        reveal_strlit("6");
        reveal_strlit("7");
        reveal_strlit("8");
        reveal_strlit("9");
    }
    let r = match d {
        0 => "0",
        1 => "1",
        2 => "2",
        3 => "3",
        4 => "4",
        5 => "5",
        6 => "6",
        7 => "7",
        8 => "8",
        _ => "9",
    };
    assert(r@ =~= seq![digit_char(d as nat)]);
    r
}

/// Appends the decimal spelling of `n` to `out`.
pub fn push_decimal(out: &mut String, n: usize)
    ensures
        final(out)@ == old(out)@ + dec(n as nat),
    decreases n,
{
    if n < 10 {
        out.append(digit_str(n));
    } else {
        push_decimal(out, n / 10);
        out.append(digit_str(n % 10));
        assert(final(out)@ =~= old(out)@ + dec(n as nat));
    }
}

/// Appends `k` spaces to `out`.
pub fn push_spaces(out: &mut String, k: usize)
    ensures
        final(out)@ == old(out)@ + spaces(k as nat),
{
    let ghost start = out@;
    let mut i: usize = 0;
    while i < k
        invariant
            i <= k,
            out@ == start + spaces(i as nat),
        decreases k - i,
    {
        proof {
            reveal_strlit(" ");
        }
        out.append(" ");
        i += 1;
        assert(out@ =~= start + spaces(i as nat));
    }
}

/// Appends to `out` the part of `line` between rendered columns `off` and
/// `off + width`, never splitting a character.
pub fn push_clipped(out: &mut String, line: &String, off: usize, width: usize)
    ensures
        final(out)@ == old(out)@ + clip(line@, off as nat, width as nat),
{
    let len = line.as_str().unicode_len();
    let start = if off < len { off } else { len };
    let end = if width < len - start { start + width } else { len };
    out.append(line.as_str().substring_char(start, end));
}

/// The welcome line for a screen `cols` wide: centred, with a placeholder
/// glyph at the left edge when there is room for padding, and cut at the
/// screen's width.
pub open spec fn banner(cols: nat) -> Seq<char> {
    let w = WELCOME@;
    let padding: nat = if cols > w.len() { ((cols - w.len()) / 2) as nat } else { 0 };
    let lead = if padding > 0 { seq!['~'] + spaces((padding - 1) as nat) } else { Seq::empty() };
    let shown = if w.len() > cols { w.subrange(0, cols as int) } else { w };
    lead + shown
}

/// What ends every content row: clear to the end of line, then a new line.
pub open spec fn row_end() -> Seq<char> {
    seq!['\x1b', '[', 'K', '\r', '\n']
}

/// Screen row `y` of the content area, with its line ending. Rows past the
/// buffer show a placeholder glyph, or the welcome line a third of the way
/// down when the buffer is empty; other rows show their part of the
/// displayed line.
pub open spec fn screen_row(
    rendered: Seq<Seq<char>>,
    y: nat,
    row_off: nat,
    col_off: nat,
    rows: nat,
    cols: nat,
) -> Seq<char> {
    let f = y + row_off;
    let body = if f >= rendered.len() {
        if rendered.len() == 0 && y == rows / 3 {
            banner(cols)
        } else {
            seq!['~']
        }
    } else {
        clip(rendered[f as int], col_off, cols)
    };
    body + row_end()
}

/// The first `k` rows of the content area.
pub open spec fn screen_rows_text(
    rendered: Seq<Seq<char>>,
    k: nat,
    row_off: nat,
    col_off: nat,
    rows: nat,
    cols: nat,
) -> Seq<char>
    decreases k,
{
    if k == 0 {
        Seq::empty()
    } else {
        screen_rows_text(rendered, (k - 1) as nat, row_off, col_off, rows, cols) + screen_row(
            rendered,
            (k - 1) as nat,
            row_off,
            col_off,
            rows,
            cols,
        )
    }
}

/// Appends the welcome line for a screen `cols` wide.
fn push_banner(out: &mut String, cols: usize)
    ensures
        final(out)@ == old(out)@ + banner(cols as nat),
{
    let ghost start = out@;
    proof {
        reveal_strlit("Kilo editor -- version 0.1.0");
        reveal_strlit("~");
    }
    let wlen = WELCOME.unicode_len();
    let padding: usize = if cols > wlen { (cols - wlen) / 2 } else { 0 };
    if padding > 0 {
        out.append("~");
        push_spaces(out, padding - 1);
    }
    let ghost mid = out@;
    if wlen > cols {
        out.append(WELCOME.substring_char(0, cols));
    } else {
        out.append(WELCOME);
    }
    assert(out@ =~= start + banner(cols as nat));
}

/// Appends the content area: `rows` screen rows of the displayed lines,
/// starting at line `row_off` and rendered column `col_off`.
pub fn push_rows(
    out: &mut String,
    render: &Vec<String>,
    row_off: usize,
    col_off: usize,
    rows: usize,
    cols: usize,
)
    requires
        row_off <= render@.len(),
    ensures
        final(out)@ == old(out)@ + screen_rows_text(
            render@.map_values(|r: String| r@),
            rows as nat,
            row_off as nat,
            col_off as nat,
            rows as nat,
            cols as nat,
        ),
{
    let ghost rendered = render@.map_values(|r: String| r@);
    let ghost start = out@;
    let n = render.len();
    let mut y: usize = 0;
    while y < rows
        invariant
            y <= rows,
            n == render@.len(),
            row_off <= n,
            rendered == render@.map_values(|r: String| r@),
            out@ == start + screen_rows_text(
                rendered,
                y as nat,
                row_off as nat,
                col_off as nat,
                rows as nat,
                cols as nat,
            ),
        decreases rows - y,
    {
        let ghost before = out@;
        if y >= n - row_off {
            if n == 0 && y == rows / 3 {
                push_banner(out, cols);
            } else {
                proof {
                    reveal_strlit("~");
                }
                out.append("~");
            }
        } else {
            push_clipped(out, &render[y + row_off], col_off, cols);
        }
        proof {
            reveal_strlit("\x1b[K\r\n");
        }
        out.append("\x1b[K\r\n");
        assert(out@ =~= before + screen_row(
            rendered,
            y as nat,
            row_off as nat,
            col_off as nat,
            rows as nat,
            cols as nat,
        ));
        y += 1;
    }
}

/// The name shown in the status bar: the file's name cut to 20 characters,
/// or a placeholder when there is none.
pub open spec fn shown_name(filename: Seq<char>) -> Seq<char> {
    let name = if filename.len() == 0 {
        seq!['[', 'N', 'o', ' ', 'N', 'a', 'm', 'e', ']']
    } else {
        filename
    };
    if name.len() > 20 {
        name.subrange(0, 20)
    } else {
        name
    }
}

/// The left part of the status bar: name, then the number of lines.
pub open spec fn left_status(filename: Seq<char>, num_rows: nat) -> Seq<char> {
    shown_name(filename) + seq![' ', '-', ' '] + dec(num_rows)
}

/// The right part of the status bar: current line (counted from one) over
/// the number of lines.
pub open spec fn right_status(cy: nat, num_rows: nat) -> Seq<char> {
    dec(cy + 1) + seq!['/'] + dec(num_rows)
}

/// The status bar, `cols` wide, in reverse video: the left part cut to the
/// width, then spaces, with the right part at the right edge where it fits in
/// what is left.
pub open spec fn status_bar(filename: Seq<char>, num_rows: nat, cy: nat, cols: nat) -> Seq<char> {
    let l = left_status(filename, num_rows);
    let r = right_status(cy, num_rows);
    let shown = if l.len() > cols { l.subrange(0, cols as int) } else { l };
    let fill = if l.len() >= cols {
        Seq::empty()
    } else if r.len() <= cols - l.len() {
        spaces((cols - l.len() - r.len()) as nat) + r
    } else {
        spaces((cols - l.len()) as nat)
    };
    seq!['\x1b', '[', '7', 'm'] + shown + fill + seq!['\x1b', '[', 'm']
}

/// Appends the status bar for a screen `cols` wide.
pub fn push_status_bar(out: &mut String, filename: &String, num_rows: usize, cy: usize, cols: usize)
    requires
        cy < usize::MAX,
    ensures
        final(out)@ == old(out)@ + status_bar(filename@, num_rows as nat, cy as nat, cols as nat),
{
    let ghost start = out@;
    proof {
        reveal_strlit("[No Name]");
        reveal_strlit(" - ");
        reveal_strlit("/");
        reveal_strlit("\x1b[7m");
        reveal_strlit("\x1b[m");
    }
    let mut name = String::new();
    if filename.as_str().unicode_len() == 0 {
        name.append("[No Name]");
    } else {
        name.append(filename.as_str());
    }
    let name_len = name.as_str().unicode_len();
    let mut status = String::new();
    if name_len > 20 {
        status.append(name.as_str().substring_char(0, 20));
    } else {
        status.append(name.as_str());
    }
    status.append(" - ");
    push_decimal(&mut status, num_rows);
    assert(status@ =~= left_status(filename@, num_rows as nat));
    let mut rstatus = String::new();
    push_decimal(&mut rstatus, cy + 1);
    rstatus.append("/");
    push_decimal(&mut rstatus, num_rows);
    assert(rstatus@ =~= right_status(cy as nat, num_rows as nat));

    out.append("\x1b[7m");
    let len = status.as_str().unicode_len();
    let rlen = rstatus.as_str().unicode_len();
    if len > cols {
        out.append(status.as_str().substring_char(0, cols));
    } else {
        out.append(status.as_str());
        if len < cols {
            if rlen <= cols - len {
                push_spaces(out, cols - len - rlen);
                out.append(rstatus.as_str());
            } else {
                push_spaces(out, cols - len);
            }
        }
    }
    out.append("\x1b[m");
    assert(out@ =~= start + status_bar(filename@, num_rows as nat, cy as nat, cols as nat));
}

/// Appends the command that puts the terminal's cursor at screen row `row`
/// and column `col`, both counted from one.
pub fn push_cursor_position(out: &mut String, row: usize, col: usize)
    ensures
        final(out)@ == old(out)@ + cursor_to(row as nat, col as nat),
{
    let ghost start = out@;
    proof {
        reveal_strlit("\x1b[");
        reveal_strlit(";");
        reveal_strlit("H");
    }
    out.append("\x1b[");
    push_decimal(out, row);
    out.append(";");
    push_decimal(out, col);
    out.append("H");
    assert(out@ =~= start + cursor_to(row as nat, col as nat));
}

/// The command that puts the terminal's cursor at screen row `row` and
/// column `col`.
pub open spec fn cursor_to(row: nat, col: nat) -> Seq<char> {
    seq!['\x1b', '['] + dec(row) + seq![';'] + dec(col) + seq!['H']
}

/// One whole frame: hide the cursor, go home, draw the content rows and the
/// status bar, put the cursor at its place in the window, show the cursor.
pub open spec fn frame(
    rendered: Seq<Seq<char>>,
    filename: Seq<char>,
    cy: nat,
    rx: nat,
    row_off: nat,
    col_off: nat,
    rows: nat,
    cols: nat,
) -> Seq<char> {
    seq!['\x1b', '[', '?', '2', '5', 'l'] + seq!['\x1b', '[', 'H'] + screen_rows_text(
        rendered,
        rows,
        row_off,
        col_off,
        rows,
        cols,
    ) + status_bar(filename, rendered.len(), cy, cols) + cursor_to(
        (cy - row_off + 1) as nat,
        (rx - col_off + 1) as nat,
    ) + seq!['\x1b', '[', '?', '2', '5', 'h']
}

} // verus!
