//! Messages shown around a session: command boxes, the missing guest root
//! notice, the setup notice, and tables of configuration changes.

use vstd::prelude::*;

use crate::text::{contains_arrow, has_arrow, push_text, repeat, repeat_text, same_text, texts};

verus! {

/// A horizontal rule of sixty double lines.
pub const SEPARATOR: &'static str = "════════════════════════════════════════════════════════════";

/// The top line of a box `inner` characters wide inside, after `pad`.
pub open spec fn box_top(pad: Seq<char>, inner: nat) -> Seq<char> {
    pad + "╔"@ + repeat('═', inner) + "╗"@
}

/// The line of a box that holds `cmd`, after `pad`.
pub open spec fn box_middle(pad: Seq<char>, cmd: Seq<char>, inner: nat) -> Seq<char> {
    pad + "║ "@ + cmd + repeat(' ', (inner - cmd.len() - 1) as nat) + "║"@
}

/// The bottom line of a box `inner` characters wide inside, after `pad`.
pub open spec fn box_bottom(pad: Seq<char>, inner: nat) -> Seq<char> {
    pad + "╚"@ + repeat('═', inner) + "╝"@
}

/// A box of double lines around `cmd`, each line indented by `indent`
/// spaces, at least `size` characters wide and always wide enough for the
/// command with a space on each side.
pub open spec fn cmd_box(cmd: Seq<char>, indent: nat, size: nat) -> Seq<char> {
    let width = if size >= cmd.len() + 4 {
        size
    } else {
        cmd.len() + 4
    };
    let inner = (width - 2) as nat;
    let pad = repeat(' ', indent);
    box_top(pad, inner) + "\n"@ + box_middle(pad, cmd, inner) + "\n"@ + box_bottom(pad, inner)
}

/// `n` spaces.
fn spaces(n: usize) -> (r: String)
    ensures
        r@ == repeat(' ', n as nat),
{
    proof {
        reveal_strlit(" ");
    }
    repeat_text(" ", n)
}

/// `n` horizontal double lines.
fn double_line(n: usize) -> (r: String)
    ensures
        r@ == repeat('═', n as nat),
{
    proof {
        reveal_strlit("═");
    }
    repeat_text("═", n)
}

/// Renders `command` in a box of double lines, indented by `indent` spaces
/// (none by default) and `size` characters wide (fifty by default), widened
/// to fit the command.
pub fn get_cmd_box(command: &str, indent: Option<usize>, size: Option<usize>) -> (r: String)
    requires
        command@.len() + 4 <= usize::MAX,
    ensures
        r@ == cmd_box(
            command@,
            match indent {
                Some(i) => i as nat,
                None => 0,
            },
            match size {
                Some(s) => s as nat,
                None => 50,
            },
        ),
{
    let n = command.unicode_len();
    let ind: usize = match indent {
        Some(i) => i,
        None => 0,
    };
    let preferred: usize = match size {
        Some(s) => s,
        None => 50,
    };
    let width: usize = if preferred >= n + 4 {
        preferred
    } else {
        n + 4
    };
    let inner: usize = width - 2;
    let padding = spaces(ind);
    let line = double_line(inner);
    let trailing = spaces(inner - n - 1);
    let top = String::from_str(padding.as_str()).concat("╔").concat(line.as_str()).concat("╗");
    let middle = String::from_str(padding.as_str()).concat("║ ").concat(command).concat(
        trailing.as_str(),
    ).concat("║");
    let bottom = String::from_str(padding.as_str()).concat("╚").concat(line.as_str()).concat(
        "╝",
    );
    assert(top@ == box_top(padding@, inner as nat));
    assert(middle@ == box_middle(padding@, command@, inner as nat));
    assert(bottom@ == box_bottom(padding@, inner as nat));
    top.concat("\n").concat(middle.as_str()).concat("\n").concat(bottom.as_str())
}

/// The notice that the guest root is missing at `path`, with the command
/// that sets it up.
pub open spec fn missing_rootfs_notice(run_command: Seq<char>, path: Seq<char>) -> Seq<char> {
    SEPARATOR@ + "\n  Error: rootfs directory not found.\n\n  Expected location:\n    -> "@ + path
        + "\n\n  Please run the following command to set it up:\n"@ + cmd_box(
        "$ "@ + run_command,
        2,
        50,
    ) + "\n"@ + SEPARATOR@
}

/// The notice that setup is complete, with the command that starts a
/// session.
pub open spec fn finish_setup_notice(run_command: Seq<char>) -> Seq<char> {
    SEPARATOR@ + "\n  Installation completed successfully!\n\n  To start the environment, run:\n\n"@
        + cmd_box("$ "@ + run_command, 2, 50) + "\n"@ + SEPARATOR@
}

/// The box of the command `$ run_command`, indented by two spaces.
fn prompt_box(run_command: &str) -> (r: String)
    requires
        run_command@.len() + 6 <= usize::MAX,
    ensures
        r@ == cmd_box("$ "@ + run_command@, 2, 50),
{
    proof {
        reveal_strlit("$ ");
    }
    let cmd = String::from_str("$ ").concat(run_command);
    get_cmd_box(cmd.as_str(), Some(2), None)
}

/// Fails with the notice that the guest root is missing at `path`, telling
/// the user to run `run_command`.
pub fn failed_exist_rootfs(run_command: &str, path: &str) -> (r: Result<(), String>)
    requires
        run_command@.len() + 6 <= usize::MAX,
    ensures
        r is Err,
        r->Err_0@ == missing_rootfs_notice(run_command@, path@),
{
    let cmd_box = prompt_box(run_command);
    let msg = String::from_str(SEPARATOR).concat(
        "\n  Error: rootfs directory not found.\n\n  Expected location:\n    -> ",
    ).concat(path).concat("\n\n  Please run the following command to set it up:\n").concat(
        cmd_box.as_str(),
    ).concat("\n").concat(SEPARATOR);
    Err(msg)
}

/// The notice that setup is complete, telling the user to run `run_command`.
pub fn finish_setup_message(run_command: &str) -> (r: String)
    requires
        run_command@.len() + 6 <= usize::MAX,
    ensures
        r@ == finish_setup_notice(run_command@),
{
    let cmd_box = prompt_box(run_command);
    String::from_str(SEPARATOR).concat(
        "\n  Installation completed successfully!\n\n  To start the environment, run:\n\n",
    ).concat(cmd_box.as_str()).concat("\n").concat(SEPARATOR)
}

/// The characters of colour codes that a changed value holds besides its
/// visible text.
pub const COLOUR_CODES_LEN: usize = 22;

/// The visible width of a table value: a changed value (`old -> new`) holds
/// colour codes that take no room.
pub open spec fn shown_len(v: Seq<char>) -> nat {
    if has_arrow(v) {
        if v.len() >= COLOUR_CODES_LEN {
            (v.len() - COLOUR_CODES_LEN) as nat
        } else {
            0
        }
    } else {
        v.len()
    }
}

/// The width of the key column: the longest key.
pub open spec fn key_width(rows: Seq<(String, String)>) -> nat
    decreases rows.len(),
{
    if rows.len() == 0 {
        0
    } else {
        let w = key_width(rows.drop_last());
        let k = rows.last().0@.len();
        if k > w {
            k
        } else {
            w
        }
    }
}

/// The width of the value column: the widest visible value.
pub open spec fn value_width(rows: Seq<(String, String)>) -> nat
    decreases rows.len(),
{
    if rows.len() == 0 {
        0
    } else {
        let w = value_width(rows.drop_last());
        let v = shown_len(rows.last().1@);
        if v > w {
            v
        } else {
            w
        }
    }
}

/// `s` followed by spaces up to `w` characters.
pub open spec fn pad_right(s: Seq<char>, w: nat) -> Seq<char> {
    if s.len() < w {
        s + repeat(' ', (w - s.len()) as nat)
    } else {
        s
    }
}

/// One row of the table, with columns `kw` and `vw` wide.
pub open spec fn table_row(k: Seq<char>, v: Seq<char>, kw: nat, vw: nat) -> Seq<char> {
    "║ "@ + pad_right(k, kw) + "   ║ "@ + pad_right(
        v,
        if has_arrow(v) {
            vw + COLOUR_CODES_LEN as nat
        } else {
            vw
        },
    ) + "   ║"@
}

/// The top border of the table.
pub open spec fn table_top(kw: nat, vw: nat) -> Seq<char> {
    "╔═"@ + repeat('═', kw) + "═══╦═"@ + repeat('═', vw) + "═══╗"@
}

/// The bottom border of the table.
pub open spec fn table_bottom(kw: nat, vw: nat) -> Seq<char> {
    "╚═"@ + repeat('═', kw) + "═══╩═"@ + repeat('═', vw) + "═══╝"@
}

/// The lines of a two-column table of `rows`, with aligned columns.
pub open spec fn table_lines(rows: Seq<(String, String)>) -> Seq<Seq<char>> {
    let kw = key_width(rows);
    let vw = value_width(rows);
    seq![table_top(kw, vw)] + rows.map_values(
        |r: (String, String)| table_row(r.0@, r.1@, kw, vw),
    ) + seq![table_bottom(kw, vw)]
}

/// `s` followed by spaces up to `w` characters.
fn pad_to(s: &str, w: usize) -> (r: String)
    ensures
        r@ == pad_right(s@, w as nat),
{
    let n = s.unicode_len();
    if n < w {
        let fill = spaces(w - n);
        String::from_str(s).concat(fill.as_str())
    } else {
        String::from_str(s)
    }
}

/// The visible width of a table value.
fn visible_len(v: &str) -> (r: usize)
    ensures
        r == shown_len(v@),
{
    let n = v.unicode_len();
    if contains_arrow(v) {
        if n >= COLOUR_CODES_LEN {
            n - COLOUR_CODES_LEN
        } else {
            0
        }
    } else {
        n
    }
}

proof fn lemma_value_width_bound(rows: Seq<(String, String)>, m: nat)
    requires
        forall|i: int| 0 <= i < rows.len() ==> #[trigger] rows[i].1@.len() <= m,
    ensures
        value_width(rows) <= m,
    decreases rows.len(),
{
    if rows.len() > 0 {
        assert(forall|i: int|
            0 <= i < rows.drop_last().len() ==> rows.drop_last()[i] == rows[i]);
        lemma_value_width_bound(rows.drop_last(), m);
        assert(rows.last() == rows[rows.len() - 1]);
    }
}

/// Renders `rows` as the lines of a two-column table with aligned columns;
/// a changed value (`old -> new`) is measured without its colour codes.
pub fn render_table_lines(rows: &Vec<(String, String)>) -> (r: Vec<String>)
    requires
        forall|i: int| 0 <= i < rows@.len() ==> #[trigger] rows@[i].1@.len() + COLOUR_CODES_LEN <= usize::MAX,
    ensures
        texts(r@) == table_lines(rows@),
{
    let mut kw: usize = 0;
    let mut vw: usize = 0;
    let mut i: usize = 0;
    while i < rows.len()
        invariant
            i <= rows.len(),
            kw == key_width(rows@.take(i as int)),
            vw == value_width(rows@.take(i as int)),
        decreases rows.len() - i,
    {
        assert(rows@.take(i + 1).drop_last() =~= rows@.take(i as int));
        let k = rows[i].0.as_str().unicode_len();
        if k > kw {
            kw = k;
        }
        let v = visible_len(rows[i].1.as_str());
        if v > vw {
            vw = v;
        }
        i = i + 1;
    }
    assert(rows@.take(rows@.len() as int) =~= rows@);
    proof {
        lemma_value_width_bound(rows@, (usize::MAX - COLOUR_CODES_LEN) as nat);
    }
    let ghost kwn = kw as nat;
    let ghost vwn = vw as nat;
    let mut out: Vec<String> = Vec::new();
    let line_k = double_line(kw);
    let line_v = double_line(vw);
    let top = String::from_str("╔═").concat(line_k.as_str()).concat("═══╦═").concat(
        line_v.as_str(),
    ).concat("═══╗");
    push_text(&mut out, top.as_str());
    let mut j: usize = 0;
    while j < rows.len()
        invariant
            j <= rows.len(),
            kw == key_width(rows@),
            vw == value_width(rows@),
            kwn == kw,
            vwn == vw,
            vw + COLOUR_CODES_LEN <= usize::MAX,
            texts(out@) == seq![table_top(kwn, vwn)] + rows@.take(j as int).map_values(
                |r: (String, String)| table_row(r.0@, r.1@, kwn, vwn),
            ),
        decreases rows.len() - j,
    {
        let key = pad_to(rows[j].0.as_str(), kw);
        let vpad: usize = if contains_arrow(rows[j].1.as_str()) {
            vw + COLOUR_CODES_LEN
        } else {
            vw
        };
        let value = pad_to(rows[j].1.as_str(), vpad);
        let line = String::from_str("║ ").concat(key.as_str()).concat("   ║ ").concat(
            value.as_str(),
        ).concat("   ║");
        assert(key@ == pad_right(rows@[j as int].0@, kwn));
        assert(vpad as nat == (if has_arrow(rows@[j as int].1@) {
            vwn + COLOUR_CODES_LEN as nat
        } else {
            vwn
        }));
        assert(value@ == pad_right(rows@[j as int].1@, vpad as nat));
        assert(line@ == table_row(rows@[j as int].0@, rows@[j as int].1@, kwn, vwn));
        push_text(&mut out, line.as_str());
        assert(rows@.take(j + 1) =~= rows@.take(j as int).push(rows@[j as int]));
        assert(texts(out@) =~= seq![table_top(kwn, vwn)] + rows@.take(j + 1).map_values(
            |r: (String, String)| table_row(r.0@, r.1@, kwn, vwn),
        ));
        j = j + 1;
    }
    let bottom = String::from_str("╚═").concat(line_k.as_str()).concat("═══╩═").concat(
        line_v.as_str(),
    ).concat("═══╝");
    push_text(&mut out, bottom.as_str());
    assert(texts(out@) =~= table_lines(rows@));
    out
}

/// A field of a configuration, as far as a table of changes shows it.
#[derive(Clone, Debug)]
pub enum JsonField {
    Null,
    Bool(bool),
    /// A number, as its JSON text.
    Number(String),
    Text(String),
    /// An array or an object, as its compact JSON text.
    Other(String),
}

/// How a field is shown: an empty text stands for the fallback directory.
pub open spec fn field_text(f: JsonField) -> Seq<char> {
    match f {
        JsonField::Null => "None"@,
        JsonField::Bool(b) => if b {
            "true"@
        } else {
            "false"@
        },
        JsonField::Number(n) => n@,
        JsonField::Text(t) => if t@.len() == 0 {
            "Current Directory or Home Fallback"@
        } else {
            t@
        },
        JsonField::Other(t) => t@,
    }
}

/// Whether two fields hold the same value.
pub open spec fn same_field(a: JsonField, b: JsonField) -> bool {
    match (a, b) {
        (JsonField::Null, JsonField::Null) => true,
        (JsonField::Bool(x), JsonField::Bool(y)) => x == y,
        (JsonField::Number(x), JsonField::Number(y)) => x@ == y@,
        (JsonField::Text(x), JsonField::Text(y)) => x@ == y@,
        (JsonField::Other(x), JsonField::Other(y)) => x@ == y@,
        _ => false,
    }
}

/// The field called `key`: the first one of that name, else null.
pub open spec fn field_of(fields: Seq<(String, JsonField)>, key: Seq<char>) -> JsonField
    decreases fields.len(),
{
    if fields.len() == 0 {
        JsonField::Null
    } else if fields[0].0@ == key {
        fields[0].1
    } else {
        field_of(fields.drop_first(), key)
    }
}

/// How a field that is now `new` and was `old` is shown: both values, the
/// old in red and the new in green, when it changed from a non-null value;
/// else the new value alone.
pub open spec fn change_text(old: JsonField, new: JsonField) -> Seq<char> {
    if !same_field(old, new) && !(old is Null) {
        "\x1b[1;31m"@ + field_text(old) + "\x1b[0m -> \x1b[1;32m"@ + field_text(new)
            + "\x1b[0m"@
    } else {
        field_text(new)
    }
}

/// How a field is shown.
pub fn json_to_display_str(v: &JsonField) -> (r: String)
    ensures
        r@ == field_text(*v),
{
    match v {
        JsonField::Null => String::from_str("None"),
        JsonField::Bool(b) => if *b {
            String::from_str("true")
        } else {
            String::from_str("false")
        },
        JsonField::Number(n) => n.clone(),
        JsonField::Text(t) => if t.as_str().is_empty() {
            String::from_str("Current Directory or Home Fallback")
        } else {
            t.clone()
        },
        JsonField::Other(t) => t.clone(),
    }
}

/// Whether two fields hold the same value.
pub fn fields_equal(a: &JsonField, b: &JsonField) -> (r: bool)
    ensures
        r == same_field(*a, *b),
{
    match (a, b) {
        (JsonField::Null, JsonField::Null) => true,
        (JsonField::Bool(x), JsonField::Bool(y)) => *x == *y,
        (JsonField::Number(x), JsonField::Number(y)) => same_text(x.as_str(), y.as_str()),
        (JsonField::Text(x), JsonField::Text(y)) => same_text(x.as_str(), y.as_str()),
        (JsonField::Other(x), JsonField::Other(y)) => same_text(x.as_str(), y.as_str()),
        _ => false,
    }
}

/// The position of the first field called `key`.
fn find_field(fields: &Vec<(String, JsonField)>, key: &str) -> (r: Option<usize>)
    ensures
        r is None ==> field_of(fields@, key@) is Null,
        r is Some ==> r->Some_0 < fields@.len() && field_of(fields@, key@)
            == fields@[r->Some_0 as int].1,
{
    let mut i: usize = 0;
    assert(fields@.skip(0) =~= fields@);
    while i < fields.len()
        invariant
            i <= fields.len(),
            field_of(fields@, key@) == field_of(fields@.skip(i as int), key@),
        decreases fields.len() - i,
    {
        assert(fields@.skip(i as int)[0] == fields@[i as int]);
        assert(fields@.skip(i as int).drop_first() =~= fields@.skip(i + 1));
        if same_text(fields[i].0.as_str(), key) {
            return Some(i);
        }
        i = i + 1;
    }
    None
}

/// How a field that is now `new` and was `old` is shown.
fn change_display(old: &JsonField, new: &JsonField) -> (r: String)
    ensures
        r@ == change_text(*old, *new),
{
    let new_str = json_to_display_str(new);
    let changed = !fields_equal(old, new) && !matches!(old, JsonField::Null);
    if changed {
        let old_str = json_to_display_str(old);
        String::from_str("\x1b[1;31m").concat(old_str.as_str()).concat(
            "\x1b[0m -> \x1b[1;32m",
        ).concat(new_str.as_str()).concat("\x1b[0m")
    } else {
        new_str
    }
}

/// The rows of a table of changes from `old` to `new`: each field of
/// `new`, in order, with its value, or its old and new values where it
/// changed from a non-null value.
pub fn get_config_diff(old: &Vec<(String, JsonField)>, new: &Vec<(String, JsonField)>) -> (r: Vec<
    (String, String),
>)
    ensures
        r@.len() == new@.len(),
        forall|i: int|
            0 <= i < new@.len() ==> (#[trigger] r@[i]).0@ == new@[i].0@ && r@[i].1@
                == change_text(field_of(old@, new@[i].0@), new@[i].1),
{
    let mut rows: Vec<(String, String)> = Vec::new();
    let mut i: usize = 0;
    while i < new.len()
        invariant
            i <= new.len(),
            rows@.len() == i,
            forall|j: int|
                0 <= j < i ==> (#[trigger] rows@[j]).0@ == new@[j].0@ && rows@[j].1@
                    == change_text(field_of(old@, new@[j].0@), new@[j].1),
        decreases new.len() - i,
    {
        let key = new[i].0.as_str();
        let shown = match find_field(old, key) {
            Some(j) => change_display(&old[j].1, &new[i].1),
            None => change_display(&JsonField::Null, &new[i].1),
        };
        rows.push((new[i].0.clone(), shown));
        i = i + 1;
    }
    rows
}

} // verus!
