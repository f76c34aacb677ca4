//! The desktop launcher entry: a fixed-format text generated from the
//! application name, icon path and install location.

use vstd::prelude::*;
use vstd::string::StringExecFns;
use crate::text::{contains_char, find_in, lemma_find_in, split_on, starts_with,
    lemma_split_on_step, lemma_split_on_whole};

verus! {

/// The `Exec=` line: a shell command that moves into the install location
/// and starts the runner binary under the fixed environment contract.
pub open spec fn exec_line(location: Seq<char>) -> Seq<char> {
    "Exec=bash -ic \"cd "@ + location
        + "; NEWTONIUM_ROOT=. NEWTONIUM_BUN=newtonium_binaries/bun NEWTONIUM_ENTRYPOINT=index.js ./newtonium_binaries/runner\""@
}

/// The six lines of the launcher entry, in order.
pub open spec fn desktop_lines(name: Seq<char>, icon: Seq<char>, location: Seq<char>) -> Seq<
    Seq<char>,
> {
    seq![
        "[Desktop Entry]"@,
        "Name="@ + name,
        exec_line(location),
        "Icon="@ + icon,
        "Type=Application"@,
        "Categories=Development"@,
    ]
}

/// The full text of the launcher entry.
pub open spec fn desktop_text(name: Seq<char>, icon: Seq<char>, location: Seq<char>) -> Seq<
    char,
> {
    "[Desktop Entry]\nName="@ + name + "\nExec=bash -ic \"cd "@ + location
        + "; NEWTONIUM_ROOT=. NEWTONIUM_BUN=newtonium_binaries/bun NEWTONIUM_ENTRYPOINT=index.js ./newtonium_binaries/runner\"\nIcon="@
        + icon + "\nType=Application\nCategories=Development"@
}

/// Produce the launcher entry text for the given application name, absolute
/// icon path and install location. Pure text generation: malformed inputs
/// still yield well-formed text, validation is the caller's business.
pub fn generate_desktop_file(name: &str, icon: String, location: String) -> (r: String)
    ensures
        r@ == desktop_text(name@, icon@, location@),
{
    let r = String::from_str("[Desktop Entry]\nName=").concat(name).concat(
        "\nExec=bash -ic \"cd ",
    ).concat(location.as_str()).concat(
        "; NEWTONIUM_ROOT=. NEWTONIUM_BUN=newtonium_binaries/bun NEWTONIUM_ENTRYPOINT=index.js ./newtonium_binaries/runner\"\nIcon=",
    ).concat(icon.as_str()).concat("\nType=Application\nCategories=Development");
    proof {
        assert(r@ =~= desktop_text(name@, icon@, location@));
    }
    r
}

/// The entry text is exactly its six lines joined with newlines: splitting
/// it on `\n` gives back `desktop_lines`, provided no input carries a
/// newline of its own.
pub proof fn lemma_desktop_text_lines(name: Seq<char>, icon: Seq<char>, location: Seq<char>)
    requires
        !contains_char(name, '\n'),
        !contains_char(icon, '\n'),
        !contains_char(location, '\n'),
    ensures
        split_on(desktop_text(name, icon, location), '\n') == desktop_lines(
            name,
            icon,
            location,
        ),
{
    reveal_strlit("[Desktop Entry]\nName=");
    reveal_strlit("\nExec=bash -ic \"cd ");
    reveal_strlit(
        "; NEWTONIUM_ROOT=. NEWTONIUM_BUN=newtonium_binaries/bun NEWTONIUM_ENTRYPOINT=index.js ./newtonium_binaries/runner\"\nIcon=",
    );
    reveal_strlit("\nType=Application\nCategories=Development");
    reveal_strlit("[Desktop Entry]");
    reveal_strlit("Name=");
    reveal_strlit("Exec=bash -ic \"cd ");
    reveal_strlit(
        "; NEWTONIUM_ROOT=. NEWTONIUM_BUN=newtonium_binaries/bun NEWTONIUM_ENTRYPOINT=index.js ./newtonium_binaries/runner\"",
    );
    reveal_strlit("Icon=");
    reveal_strlit("Type=Application");
    reveal_strlit("Categories=Development");
    let nl = seq!['\n'];
    let l0 = "[Desktop Entry]"@;
    let l1 = "Name="@ + name;
    let l2 = exec_line(location);
    let l3 = "Icon="@ + icon;
    let l4 = "Type=Application"@;
    let l5 = "Categories=Development"@;
    let r4 = l4 + nl + l5;
    let r3 = l3 + nl + r4;
    let r2 = l2 + nl + r3;
    let r1 = l1 + nl + r2;
    let s = desktop_text(name, icon, location);
    assert(s =~= l0 + nl + r1);
    assert(!contains_char(l0, '\n')) by {
        assert forall|j: int| 0 <= j < l0.len() implies l0[j] != '\n' by {}
    }
    assert(!contains_char(l1, '\n')) by {
        assert forall|j: int| 0 <= j < l1.len() implies l1[j] != '\n' by {
            if j >= 5 {
                assert(l1[j] == name[j - 5]);
            }
        }
    }
    assert(!contains_char(l2, '\n')) by {
        assert forall|j: int| 0 <= j < l2.len() implies l2[j] != '\n' by {
            if 18 <= j < 18 + location.len() {
                assert(l2[j] == location[j - 18]);
            }
        }
    }
    assert(!contains_char(l3, '\n')) by {
        assert forall|j: int| 0 <= j < l3.len() implies l3[j] != '\n' by {
            if j >= 5 {
                assert(l3[j] == icon[j - 5]);
            }
        }
    }
    assert(!contains_char(l4, '\n')) by {
        assert forall|j: int| 0 <= j < l4.len() implies l4[j] != '\n' by {}
    }
    assert(!contains_char(l5, '\n')) by {
        assert forall|j: int| 0 <= j < l5.len() implies l5[j] != '\n' by {}
    }
    lemma_split_on_step(l0, r1, '\n');
    lemma_split_on_step(l1, r2, '\n');
    lemma_split_on_step(l2, r3, '\n');
    lemma_split_on_step(l3, r4, '\n');
    lemma_split_on_step(l4, l5, '\n');
    lemma_split_on_whole(l5, '\n');
    assert(split_on(s, '\n') =~= desktop_lines(name, icon, location));
}

/// The target of the `cd` inside an `Exec=` line: the run of characters
/// after the opening `Exec=bash -ic "cd ` and before the first `;`.
pub open spec fn cd_target(line: Seq<char>) -> Seq<char> {
    let body = line.skip(18);
    body.take(find_in(body, ';'))
}

/// The generated entry has exactly one `Exec=` line, and that line's `cd`
/// target is the install location, verbatim.
pub proof fn lemma_desktop_exec_line(name: Seq<char>, icon: Seq<char>, location: Seq<char>)
    requires
        location.len() > 0,
        !contains_char(location, ';'),
        !contains_char(name, '\n'),
        !contains_char(icon, '\n'),
        !contains_char(location, '\n'),
    ensures
        ({
            let lines = split_on(desktop_text(name, icon, location), '\n');
            &&& lines.len() == 6
            &&& starts_with(lines[2], "Exec="@)
            &&& forall|k: int|
                0 <= k < 6 && k != 2 ==> !starts_with(#[trigger] lines[k], "Exec="@)
            &&& cd_target(lines[2]) == location
        }),
{
    lemma_desktop_text_lines(name, icon, location);
    reveal_strlit("Exec=");
    reveal_strlit("[Desktop Entry]");
    reveal_strlit("Name=");
    reveal_strlit("Exec=bash -ic \"cd ");
    reveal_strlit(
        "; NEWTONIUM_ROOT=. NEWTONIUM_BUN=newtonium_binaries/bun NEWTONIUM_ENTRYPOINT=index.js ./newtonium_binaries/runner\"",
    );
    reveal_strlit("Icon=");
    reveal_strlit("Type=Application");
    reveal_strlit("Categories=Development");
    let lines = split_on(desktop_text(name, icon, location), '\n');
    let pre = "Exec=bash -ic \"cd "@;
    let post =
        "; NEWTONIUM_ROOT=. NEWTONIUM_BUN=newtonium_binaries/bun NEWTONIUM_ENTRYPOINT=index.js ./newtonium_binaries/runner\""@;
    let l2 = exec_line(location);
    assert(l2.take(5) =~= "Exec="@);
    assert(starts_with(lines[2], "Exec="@));
    assert forall|k: int| 0 <= k < 6 && k != 2 implies !starts_with(
        #[trigger] lines[k],
        "Exec="@,
    ) by {
        if starts_with(lines[k], "Exec="@) {
            assert(lines[k].take(5)[0] == lines[k][0]);
            assert(lines[k][0] == 'E');
        }
    }
    let body = l2.skip(18);
    assert(body =~= location + post);
    lemma_find_in(body, ';');
    assert(body[location.len() as int] == ';');
    if find_in(body, ';') < location.len() {
        assert(body[find_in(body, ';')] == location[find_in(body, ';')]);
        assert(contains_char(location, ';'));
    }
    if find_in(body, ';') > location.len() {
        assert(body[location.len() as int] != ';');
    }
    assert(find_in(body, ';') == location.len());
    assert(body.take(location.len() as int) =~= location);
}

} // verus!
