//! Parsing of window titles into a project name and an editor name.
//!
//! A KiCAD editor window is titled `project — editor`, with an em dash
//! between the two; an unsaved document carries a leading `*` on the
//! project part.

use vstd::prelude::*;

use crate::strutil;

verus! {

/// The three-character separator ` — ` stands in `s` at position `i`.
pub open spec fn sep_at(s: Seq<char>, i: int) -> bool {
    &&& 0 <= i
    &&& i + 3 <= s.len()
    &&& s[i] == ' '
    &&& s[i + 1] == '\u{2014}'
    &&& s[i + 2] == ' '
}

/// Position of the first separator in `s`, if any.
pub open spec fn first_sep_index(s: Seq<char>) -> Option<int>
    decreases s.len(),
{
    if sep_at(s, 0) {
        Some(0)
    } else if s.len() == 0 {
        None
    } else {
        match first_sep_index(s.drop_first()) {
            None => None,
            Some(i) => Some(i + 1),
        }
    }
}

/// `first_sep_index` names the leftmost separator position.
pub proof fn lemma_first_sep_index(s: Seq<char>)
    ensures
        match first_sep_index(s) {
            None => forall|i: int| !sep_at(s, i),
            Some(i) => sep_at(s, i) && (forall|j: int| 0 <= j < i ==> !sep_at(s, j)),
        },
    decreases s.len(),
{
    if !sep_at(s, 0) && s.len() > 0 {
        let t = s.drop_first();
        lemma_first_sep_index(t);
        assert forall|j: int| 1 <= j implies sep_at(s, j) == sep_at(t, j - 1) by {
            if 1 <= j && j + 3 <= s.len() {
                assert(t[j - 1] == s[j]);
                assert(t[j] == s[j + 1]);
                assert(t[j + 1] == s[j + 2]);
            }
        }
        match first_sep_index(t) {
            None => {
                assert forall|i: int| !sep_at(s, i) by {
                    if 1 <= i {
                        assert(!sep_at(t, i - 1));
                    }
                }
            },
            Some(i) => {
                assert(sep_at(t, i));
                assert(sep_at(s, i + 1));
                assert forall|j: int| 0 <= j < i + 1 implies !sep_at(s, j) by {
                    if 1 <= j {
                        assert(!sep_at(t, j - 1));
                    }
                }
            },
        }
    }
}

/// The project and editor parts of a window title: the text on either side
/// of the first ` — `, with a leading `*` dropped from the project part.
pub open spec fn spec_title_parts(t: Seq<char>) -> Option<(Seq<char>, Seq<char>)> {
    match first_sep_index(t) {
        None => None,
        Some(i) => {
            let raw = t.subrange(0, i);
            let project = if raw.len() > 0 && raw[0] == '*' {
                raw.subrange(1, raw.len() as int)
            } else {
                raw
            };
            Some((project, t.subrange(i + 3, t.len() as int)))
        },
    }
}

/// The document file name that a parsed title stands for: the project part
/// with the extension of the editor named by the editor part, or the empty
/// name when the editor part names no KiCAD editor.
pub open spec fn spec_filename_for(project: Seq<char>, editor: Seq<char>) -> Seq<char> {
    if editor == "Schematic Editor"@ {
        project + ".kicad_sch"@
    } else if editor == "PCB Editor"@ {
        project + ".kicad_pcb"@
    } else {
        Seq::empty()
    }
}

/// The document file name derived from a whole window title, if the title
/// has the ` — ` separator at all.
pub open spec fn spec_title_filename(t: Seq<char>) -> Option<Seq<char>> {
    match spec_title_parts(t) {
        None => None,
        Some(pe) => Some(spec_filename_for(pe.0, pe.1)),
    }
}

/// Split a window title at the first ` — ` into project and editor parts,
/// dropping a leading `*` from the project part.
pub fn parse_title(title: &str) -> (r: Option<(String, String)>)
    ensures
        r is None ==> spec_title_parts(title@) is None,
        r matches Some(pe) ==> spec_title_parts(title@) == Some((pe.0@, pe.1@)),
{
    let n = title.unicode_len();
    proof {
        lemma_first_sep_index(title@);
    }
    if n < 3 {
        return None;
    }
    let mut i: usize = 0;
    let mut found: Option<usize> = None;
    while i <= n - 3 && found.is_none()
        invariant
            n == title@.len(),
            3 <= n,
            i <= n - 2,
            match found {
                None => forall|j: int| 0 <= j < i ==> !sep_at(title@, j),
                Some(k) => k == i && sep_at(title@, k as int) && (forall|j: int|
                    0 <= j < k ==> !sep_at(title@, j)),
            },
        decreases n - i + (if found.is_none() { 1int } else { 0int }),
    {
        if title.get_char(i) == ' ' && title.get_char(i + 1) == '\u{2014}' && title.get_char(i + 2)
            == ' ' {
            found = Some(i);
        } else {
            i = i + 1;
        }
    }
    match found {
        None => {
            assert(forall|j: int| 0 <= j < n - 2 ==> !sep_at(title@, j));
            assert(first_sep_index(title@) is None);
            None
        },
        Some(k) => {
            assert(first_sep_index(title@) == Some(k as int));
            let raw = title.substring_char(0, k);
            let editor = title.substring_char(k + 3, n);
            proof {
                reveal_strlit("*");
                if strutil::spec_starts_with(raw@, "*"@) {
                    assert(raw@.subrange(0, 1)[0] == raw@[0]);
                }
                if raw@.len() > 0 && raw@[0] == '*' {
                    assert(raw@.subrange(0, 1) =~= "*"@);
                }
            }
            let project: String = if strutil::starts_with(raw, "*") {
                String::from_str(raw.substring_char(1, k))
            } else {
                String::from_str(raw)
            };
            let editor_s = String::from_str(editor);
            proof {
                assert(spec_title_parts(title@) =~~= Some((project@, editor_s@)));
            }
            Some((project, editor_s))
        },
    }
}

/// Build the document file name for a project and editor pair.
pub fn filename_for(project: &str, editor: &str) -> (r: String)
    ensures
        r@ == spec_filename_for(project@, editor@),
{
    if strutil::str_eq_str(editor, "Schematic Editor") {
        strutil::concat2(project, ".kicad_sch")
    } else if strutil::str_eq_str(editor, "PCB Editor") {
        strutil::concat2(project, ".kicad_pcb")
    } else {
        String::new()
    }
}

/// The document file name derived from a whole window title.
pub fn title_filename(title: &str) -> (r: Option<String>)
    ensures
        r is None ==> spec_title_filename(title@) is None,
        r matches Some(f) ==> spec_title_filename(title@) == Some(f@),
{
    match parse_title(title) {
        None => None,
        Some(pe) => Some(filename_for(pe.0.as_str(), pe.1.as_str())),
    }
}

/// The active window belongs to this program yet carries no title; on
/// macOS that means the screen-recording permission is missing.
pub fn window_needs_permission_warning(app_name: &str, title: &str) -> (r: bool)
    ensures
        r == (app_name@ == "kicad-wakatime"@ && title@.len() == 0),
{
    strutil::str_eq_str(app_name, "kicad-wakatime") && title.unicode_len() == 0
}

} // verus!
