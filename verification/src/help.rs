//! The help screen: a banner, the table of the built-in commands, a few
//! examples and tips.

use crate::built_in::{builtin_names, ksh_num_builtins, BUILTIN_STR};
use crate::prompt::{prompt, put_prompt};
use crate::text::{decimal, format_decimal, pad, padded};
use vstd::prelude::*;
use vstd::string::*;

verus! {

/// The number of commands in one row of the table.
pub const COLUMNS: usize = 4;

/// The width to which a command's name is padded in its cell.
pub const NAME_WIDTH: usize = 7;

/// The sign that ends the prompt in the examples.
pub const HELP_SIGN: &'static str = "\u{3bb}";

/// The line of stars that frames the banner.
pub const STARS: &'static str =
    "******************************************************************************";

/// The empty line of the banner.
pub const BANNER_BLANK: &'static str =
    "*                                                                            *";

/// The welcome line of the banner.
pub const BANNER_WELCOME: &'static str =
    "*                    Welcome to Zheng Yunkun's First Shell!                  *";

/// The line of the banner that names the shell.
pub const BANNER_NAME: &'static str =
    "*                                    ksh                                     *";

/// The farewell line at the end of the help screen.
pub const BANNER_BYE: &'static str =
    "*                                  Bye-bye                                   *";

/// What stands before every line of the table.
pub const TABLE_INDENT: &'static str = "        ";

/// The piece of a border that lies under or over one cell.
pub const TABLE_RULE: &'static str = "---------------+";

/// A cell that holds no command.
pub const EMPTY_CELL: &'static str = "|               ";

/// `s` as a line of its own.
pub open spec fn line(s: Seq<char>) -> Seq<char> {
    s + "\n"@
}

/// `piece`, `count` times over.
pub open spec fn repeated(piece: Seq<char>, count: nat) -> Seq<char>
    decreases count,
{
    if count == 0 {
        Seq::empty()
    } else {
        repeated(piece, (count - 1) as nat) + piece
    }
}

/// What opens the help screen.
pub open spec fn help_banner() -> Seq<char> {
    line(STARS@) + line(BANNER_BLANK@) + line(BANNER_WELCOME@) + line(BANNER_NAME@) + line(
        BANNER_BLANK@,
    ) + line(STARS@) + line(""@) + line(
        "Type program names and arguments, and hit enter to execute."@,
    ) + line("The following are built-in commands:"@) + line(""@)
}

/// The line that closes the table at its top, and every row at its bottom.
pub open spec fn table_border() -> Seq<char> {
    TABLE_INDENT@ + "+"@ + repeated(TABLE_RULE@, COLUMNS as nat) + "\n"@
}

/// The cell of the command `name`, which has the number `number` (from 1): the
/// number in brackets, set to two places, and the name in red.
pub open spec fn table_cell(number: nat, name: Seq<char>) -> Seq<char> {
    "|  ("@ + decimal(number) + ")"@ + (if number < 10 {
        " "@
    } else {
        ""@
    }) + "  \x1b[0;31m"@ + padded(name, NAME_WIDTH as nat) + "\x1b[0m"@
}

/// What stands in place `k` (from 0) of the table: the cell of the command
/// with that index, or an empty cell behind the last command.
pub open spec fn table_slot(names: Seq<Seq<char>>, k: nat) -> Seq<char> {
    if k < names.len() {
        table_cell(k + 1, names[k as int])
    } else {
        EMPTY_CELL@
    }
}

/// The places `from`, `from + 1`, ... of the table, `count` of them, side by
/// side.
pub open spec fn table_slots(names: Seq<Seq<char>>, from: nat, count: nat) -> Seq<char>
    decreases count,
{
    if count == 0 {
        Seq::empty()
    } else {
        table_slots(names, from, (count - 1) as nat) + table_slot(
            names,
            (from + count - 1) as nat,
        )
    }
}

/// Row `r` (from 0) of the table, with the border below it.
pub open spec fn table_row(names: Seq<Seq<char>>, r: nat) -> Seq<char> {
    TABLE_INDENT@ + table_slots(names, r * COLUMNS as nat, COLUMNS as nat) + line("|"@)
        + table_border()
}

/// The first `rows` rows of the table.
pub open spec fn table_rows(names: Seq<Seq<char>>, rows: nat) -> Seq<char>
    decreases rows,
{
    if rows == 0 {
        Seq::empty()
    } else {
        table_rows(names, (rows - 1) as nat) + table_row(names, (rows - 1) as nat)
    }
}

/// The number of rows that `count` commands take.
pub open spec fn row_count(count: nat) -> nat {
    ((count + COLUMNS - 1) / COLUMNS as int) as nat
}

/// The table of the commands `names`: `COLUMNS` to a row, numbered from 1,
/// the last row filled up with empty cells.
pub open spec fn table(names: Seq<Seq<char>>) -> Seq<char> {
    table_border() + table_rows(names, row_count(names.len()))
}

/// One example: a prompt, indented, and the command typed at it.
pub open spec fn example(user: Seq<char>, dir: Seq<char>, command: Seq<char>) -> Seq<char> {
    "  "@ + prompt(user, dir, HELP_SIGN@) + line(command)
}

/// The examples, as the user `user` would see them in the directory `dir`.
pub open spec fn help_examples(user: Seq<char>, dir: Seq<char>) -> Seq<char> {
    line(""@) + line("Use the 'man' command for information on other programs."@) + line(""@)
        + line("Examples:"@) + example(user, dir, "ls -l"@) + example(
        user,
        dir,
        "cd /home/user"@,
    ) + example(user, dir, "echo \"Hello, World!\""@)
}

/// What closes the help screen.
pub open spec fn help_tips() -> Seq<char> {
    line(""@) + line("Tips:"@) + line("  - Use 'cd' to change directories."@) + line(
        "  - Use 'exit' to quit the shell."@,
    ) + line("  - Use 'help' to see this message again."@) + line(""@) + line(STARS@) + line(
        BANNER_BYE@,
    ) + line(STARS@)
}

/// The help screen for the user `user` in the directory `dir`.
pub open spec fn help_screen(user: Seq<char>, dir: Seq<char>) -> Seq<char> {
    help_banner() + table(builtin_names()) + help_examples(user, dir) + help_tips()
}

/// Adds `s` and a line break to the end of `out`.
fn put_line(out: &mut String, s: &str)
    ensures
        final(out)@ == old(out)@ + line(s@),
{
    out.append(s);
    out.append("\n");
    assert(out@ =~= old(out)@ + line(s@));
}

/// Adds the banner to the end of `out`.
fn put_banner(out: &mut String)
    ensures
        final(out)@ == old(out)@ + help_banner(),
{
    put_line(out, STARS);
    put_line(out, BANNER_BLANK);
    put_line(out, BANNER_WELCOME);
    put_line(out, BANNER_NAME);
    put_line(out, BANNER_BLANK);
    put_line(out, STARS);
    put_line(out, "");
    put_line(out, "Type program names and arguments, and hit enter to execute.");
    put_line(out, "The following are built-in commands:");
    put_line(out, "");
    assert(out@ =~= old(out)@ + help_banner());
}

/// Adds `piece` to the end of `out`, `count` times over.
fn put_repeated(out: &mut String, piece: &str, count: usize)
    ensures
        final(out)@ == old(out)@ + repeated(piece@, count as nat),
{
    let ghost before = out@;
    let mut k: usize = 0;
    assert(out@ =~= before + repeated(piece@, 0));
    while k < count
        invariant
            k <= count,
            out@ == before + repeated(piece@, k as nat),
        decreases count - k,
    {
        out.append(piece);
        k = k + 1;
        assert(out@ =~= before + repeated(piece@, k as nat));
    }
}

/// Adds a border of the table to the end of `out`.
fn put_border(out: &mut String)
    ensures
        final(out)@ == old(out)@ + table_border(),
{
    out.append(TABLE_INDENT);
    out.append("+");
    put_repeated(out, TABLE_RULE, COLUMNS);
    out.append("\n");
    assert(out@ =~= old(out)@ + table_border());
}

/// Adds the cell of the command `name` with the number `number` to the end
/// of `out`.
fn put_cell(out: &mut String, number: usize, name: &str)
    ensures
        final(out)@ == old(out)@ + table_cell(number as nat, name@),
{
    out.append("|  (");
    let digits = format_decimal(number);
    out.append(digits.as_str());
    out.append(")");
    out.append(
        if number < 10 {
            " "
        } else {
            ""
        },
    );
    out.append("  \x1b[0;31m");
    let padded_name = pad(name, NAME_WIDTH);
    out.append(padded_name.as_str());
    out.append("\x1b[0m");
    assert(out@ =~= old(out)@ + table_cell(number as nat, name@));
}

/// What setting command number `number` (from 1) adds to the table: the
/// indent before the first cell of a row, the cell, and the end of the row
/// behind its last cell.
spec fn table_entry(names: Seq<Seq<char>>, number: nat) -> Seq<char> {
    (if number % COLUMNS as nat == 1 {
        TABLE_INDENT@
    } else {
        Seq::empty()
    }) + table_cell(number, names[number - 1]) + (if number % COLUMNS as nat == 0 {
        line("|"@) + table_border()
    } else {
        Seq::empty()
    })
}

/// What setting the first `done` commands adds to the table.
spec fn table_entries(names: Seq<Seq<char>>, done: nat) -> Seq<char>
    decreases done,
{
    if done == 0 {
        Seq::empty()
    } else {
        table_entries(names, (done - 1) as nat) + table_entry(names, done)
    }
}

/// The cells of a row of which `filled` are set: nothing where none is, else
/// the indent and the cells so far.
spec fn open_row(names: Seq<Seq<char>>, row: nat, filled: nat) -> Seq<char> {
    if filled == 0 {
        Seq::empty()
    } else {
        TABLE_INDENT@ + table_slots(names, row * COLUMNS as nat, filled)
    }
}

/// Setting the commands one after the other fills the table row by row: when
/// `row` rows are full and `filled` cells of the next are set, the table
/// holds those rows and those cells.
proof fn lemma_entries_fill_rows(names: Seq<Seq<char>>, row: nat, filled: nat)
    requires
        filled < COLUMNS,
        row * COLUMNS as nat + filled <= names.len(),
    ensures
        table_entries(names, row * COLUMNS as nat + filled) == table_rows(names, row)
            + open_row(names, row, filled),
    decreases row * COLUMNS as nat + filled,
{
    let done = row * COLUMNS as nat + filled;
    if done == 0 {
        assert(table_entries(names, 0) =~= table_rows(names, 0) + open_row(names, 0, 0));
    } else {
        let cell = table_cell(done, names[done - 1]);
        assert(table_slot(names, (done - 1) as nat) == cell);
        let so_far = table_entries(names, (done - 1) as nat);
        assert(table_entries(names, done) == so_far + table_entry(names, done));
        if filled == 0 {
            let above = (row - 1) as nat;
            let from = above * COLUMNS as nat;
            lemma_entries_fill_rows(names, above, (COLUMNS - 1) as nat);
            let rows = table_rows(names, above);
            let cells = table_slots(names, from, (COLUMNS - 1) as nat);
            assert(so_far == rows + (TABLE_INDENT@ + cells));
            assert(table_slots(names, from, COLUMNS as nat) == cells + cell);
            assert(table_entry(names, done) =~= cell + (line("|"@) + table_border()));
            assert(table_row(names, above) =~= (TABLE_INDENT@ + cells) + (cell + (line("|"@)
                + table_border())));
            assert(table_rows(names, row) == rows + table_row(names, above));
            lemma_join(rows, TABLE_INDENT@ + cells, cell + (line("|"@) + table_border()));
            assert(open_row(names, row, 0) =~= Seq::<char>::empty());
            assert(table_rows(names, row) + open_row(names, row, 0) =~= table_rows(names, row));
        } else {
            let from = row * COLUMNS as nat;
            lemma_entries_fill_rows(names, row, (filled - 1) as nat);
            let rows = table_rows(names, row);
            let cells = table_slots(names, from, (filled - 1) as nat);
            assert(table_slots(names, from, filled) == cells + cell);
            if filled == 1 {
                assert(cells =~= Seq::<char>::empty());
                assert(so_far =~= rows);
                assert(table_entry(names, done) =~= TABLE_INDENT@ + cell);
                assert(open_row(names, row, 1) =~= TABLE_INDENT@ + cell);
            } else {
                assert(so_far == rows + (TABLE_INDENT@ + cells));
                assert(table_entry(names, done) =~= cell);
                assert(open_row(names, row, filled) =~= (TABLE_INDENT@ + cells) + cell);
                lemma_join(rows, TABLE_INDENT@ + cells, cell);
            }
        }
    }
}

/// Joining three texts gives the same whichever two are joined first.
proof fn lemma_join(a: Seq<char>, b: Seq<char>, c: Seq<char>)
    ensures
        (a + b) + c == a + (b + c),
{
    assert((a + b) + c =~= a + (b + c));
}

/// Empty cells behind the last command, and the end of the row, complete a
/// row that is being filled.
proof fn lemma_blanks_close_row(names: Seq<Seq<char>>, row: nat, filled: nat)
    requires
        0 < filled < COLUMNS,
        row * COLUMNS as nat + filled == names.len(),
    ensures
        open_row(names, row, filled) + repeated(EMPTY_CELL@, (COLUMNS - filled) as nat) + line(
            "|"@,
        ) + table_border() == table_row(names, row),
{
    let from = row * COLUMNS as nat;
    lemma_blank_slots(names, from, filled, (COLUMNS - filled) as nat);
    let cells = table_slots(names, from, filled);
    let blank = repeated(EMPTY_CELL@, (COLUMNS - filled) as nat);
    assert(table_slots(names, from, COLUMNS as nat) == cells + blank);
    lemma_join(TABLE_INDENT@, cells, blank);
    assert(open_row(names, row, filled) + blank == TABLE_INDENT@ + (cells + blank));
}

/// Behind the last command every place holds an empty cell.
proof fn lemma_blank_slots(names: Seq<Seq<char>>, from: nat, filled: nat, blank: nat)
    requires
        from + filled == names.len(),
    ensures
        table_slots(names, from, filled + blank) == table_slots(names, from, filled) + repeated(
            EMPTY_CELL@,
            blank,
        ),
    decreases blank,
{
    let cells = table_slots(names, from, filled);
    if blank == 0 {
        assert(cells + repeated(EMPTY_CELL@, 0) =~= cells);
    } else {
        lemma_blank_slots(names, from, filled, (blank - 1) as nat);
        assert(table_slot(names, (from + filled + blank - 1) as nat) == EMPTY_CELL@);
        lemma_join(cells, repeated(EMPTY_CELL@, (blank - 1) as nat), EMPTY_CELL@);
    }
}

/// Sets command number `number` into the table at the end of `out`.
fn put_entry(out: &mut String, number: usize)
    requires
        1 <= number <= builtin_names().len(),
    ensures
        final(out)@ == old(out)@ + table_entry(builtin_names(), number as nat),
{
    if number % COLUMNS == 1 {
        out.append(TABLE_INDENT);
    }
    put_cell(out, number, BUILTIN_STR[number - 1]);
    if number % COLUMNS == 0 {
        put_line(out, "|");
        put_border(out);
    }
    assert(out@ =~= old(out)@ + table_entry(builtin_names(), number as nat));
}

/// Adds the table of the built-in commands to the end of `out`: the
/// commands are set one after the other, a row is closed behind every
/// `COLUMNS` of them, and the last row is filled up with empty cells.
fn put_table(out: &mut String)
    ensures
        final(out)@ == old(out)@ + table(builtin_names()),
{
    let ghost names = builtin_names();
    let count: usize = ksh_num_builtins();
    put_border(out);
    let ghost top = out@;
    let mut i: usize = 1;
    assert(out@ =~= top + table_entries(names, 0));
    while i <= count
        invariant
            names == builtin_names(),
            count == names.len(),
            1 <= i <= count + 1,
            out@ == top + table_entries(names, (i - 1) as nat),
        decreases count + 1 - i,
    {
        put_entry(out, i);
        assert(out@ =~= top + table_entries(names, i as nat));
        i = i + 1;
    }
    let filled: usize = count % COLUMNS;
    let ghost rows = (count / COLUMNS) as nat;
    proof {
        lemma_entries_fill_rows(names, rows, filled as nat);
    }
    if filled != 0 {
        put_repeated(out, EMPTY_CELL, COLUMNS - filled);
        put_line(out, "|");
        put_border(out);
        proof {
            lemma_blanks_close_row(names, rows, filled as nat);
            assert(row_count(names.len()) == rows + 1);
            assert(out@ =~= top + table_rows(names, rows) + (open_row(names, rows, filled as nat)
                + repeated(EMPTY_CELL@, (COLUMNS - filled) as nat) + line("|"@)
                + table_border()));
        }
    } else {
        assert(row_count(names.len()) == rows);
        assert(out@ =~= top + table_rows(names, rows));
    }
    assert(out@ =~= old(out)@ + table(names));
}

/// Adds one example to the end of `out`.
fn put_example(out: &mut String, user: &str, dir: &str, command: &str)
    ensures
        final(out)@ == old(out)@ + example(user@, dir@, command@),
{
    out.append("  ");
    put_prompt(out, user, dir, HELP_SIGN);
    put_line(out, command);
    assert(out@ =~= old(out)@ + example(user@, dir@, command@));
}

/// Adds the examples to the end of `out`.
fn put_examples(out: &mut String, user: &str, dir: &str)
    ensures
        final(out)@ == old(out)@ + help_examples(user@, dir@),
{
    put_line(out, "");
    put_line(out, "Use the 'man' command for information on other programs.");
    put_line(out, "");
    put_line(out, "Examples:");
    put_example(out, user, dir, "ls -l");
    put_example(out, user, dir, "cd /home/user");
    put_example(out, user, dir, "echo \"Hello, World!\"");
    assert(out@ =~= old(out)@ + help_examples(user@, dir@));
}

/// Adds the tips and the farewell to the end of `out`.
fn put_tips(out: &mut String)
    ensures
        final(out)@ == old(out)@ + help_tips(),
{
    put_line(out, "");
    put_line(out, "Tips:");
    put_line(out, "  - Use 'cd' to change directories.");
    put_line(out, "  - Use 'exit' to quit the shell.");
    put_line(out, "  - Use 'help' to see this message again.");
    put_line(out, "");
    put_line(out, STARS);
    put_line(out, BANNER_BYE);
    put_line(out, STARS);
    assert(out@ =~= old(out)@ + help_tips());
}

/// Writes the help screen for the user `user` in the directory `dir`.
pub fn help_text(user: &str, dir: &str) -> (text: String)
    ensures
        text@ == help_screen(user@, dir@),
{
    let mut text = String::new();
    put_banner(&mut text);
    put_table(&mut text);
    put_examples(&mut text, user, dir);
    put_tips(&mut text);
    assert(text@ =~= help_screen(user@, dir@));
    text
}

} // verus!
