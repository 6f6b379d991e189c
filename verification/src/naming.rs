//! Spellings that the golden-image harnesses derive from case names and
//! file paths: the class name of a case (`holy_grail` becomes `HolyGrail`)
//! and the `file:///` address of a page on disk.

use vstd::prelude::*;

verus! {

/// What `char::to_uppercase` yields for a character: one or more
/// characters, by Unicode's case tables.
pub uninterp spec fn upper_mapping(c: char) -> Seq<char>;

/// `char::to_uppercase`, collected into a string. The contract names the
/// result and says nothing more of it: which characters come out follows
/// Unicode's tables, which are not restated here.
#[verifier::external_body]
fn upper_case(c: char) -> (r: String)
    ensures
        r@ == upper_mapping(c),
{
    c.to_uppercase().to_string()
}

/// `String::push`: appends one character.
#[verifier::external_body]
fn push_char(buf: &mut String, c: char)
    ensures
        final(buf)@ == old(buf)@.push(c),
{
    buf.push(c);
}

/// The camel-case spelling of `s`: underscores are dropped, and the first
/// character of each run between them is uppercased when `cap` holds for
/// the first run (it always holds after an underscore).
pub open spec fn camel_text(s: Seq<char>, cap: bool) -> Seq<char>
    decreases s.len(),
{
    if s.len() == 0 {
        Seq::empty()
    } else if s[0] == '_' {
        camel_text(s.drop_first(), true)
    } else if cap {
        upper_mapping(s[0]) + camel_text(s.drop_first(), false)
    } else {
        seq![s[0]] + camel_text(s.drop_first(), false)
    }
}

/// The class name of a case: each word of the snake-case name with its
/// first character uppercased, the words joined without separator.
pub open spec fn snake_to_camel_text(s: Seq<char>) -> Seq<char> {
    camel_text(s, true)
}

/// `s` with every backslash turned into a slash.
pub open spec fn slashed(s: Seq<char>) -> Seq<char> {
    s.map_values(|c: char| if c == '\\' { '/' } else { c })
}

/// The `file:///` address of a canonical path: backslashes become slashes,
/// and the `//?/` prefix of a verbatim Windows path is dropped.
pub open spec fn file_url_text(path: Seq<char>) -> Seq<char> {
    let t = slashed(path);
    if t.len() >= 4 && t.subrange(0, 4) == "//?/"@ {
        "file:///"@ + t.subrange(4, t.len() as int)
    } else {
        "file:///"@ + t
    }
}

/// The class name under which the golden suites hold a case
/// (`tpl_nav_bar` gives `TplNavBar`).
pub fn snake_to_camel(s: &str) -> (r: String)
    ensures
        r@ == snake_to_camel_text(s@),
{
    let mut out = String::new();
    let mut cap = true;
    let ghost full = s@;
    proof {
        broadcast use vstd::string::axiom_spec_iter;

        assert(full.skip(0) =~= full);
        assert(out@ + camel_text(full, true) =~= camel_text(full, true));
    }
    for c in it: s.chars()
        invariant
            it.seq() == full,
            out@ + camel_text(full.skip(it.index() as int), cap) == camel_text(full, true),
    {
        let ghost i = it.index() as int;
        let ghost rest = full.skip(i);
        let ghost before = out@;
        proof {
            assert(rest.len() > 0);
            assert(rest[0] == c);
            assert(rest.drop_first() =~= full.skip(i + 1));
        }
        if c == '_' {
            cap = true;
        } else if cap {
            let u = upper_case(c);
            out.append(u.as_str());
            cap = false;
            proof {
                let tail = camel_text(full.skip(i + 1), false);
                assert(out@ + tail =~= before + (u@ + tail));
            }
        } else {
            push_char(&mut out, c);
            proof {
                let tail = camel_text(full.skip(i + 1), false);
                assert(out@ + tail =~= before + (seq![c] + tail));
            }
        }
    }
    proof {
        assert(full.skip(full.len() as int) =~= Seq::<char>::empty());
    }
    out
}

/// The `file:///` address of a path already made canonical (making it so
/// reads the disk and stays with the caller).
pub fn file_url(path: &str) -> (r: String)
    ensures
        r@ == file_url_text(path@),
{
    let ghost full = path@;
    let mut t: Vec<char> = Vec::new();
    proof {
        broadcast use vstd::string::axiom_spec_iter;

    }
    for c in it: path.chars()
        invariant
            it.seq() == full,
            t@ == slashed(full.take(it.index() as int)),
    {
        let ghost i = it.index() as int;
        proof {
            assert(full[i] == c);
        }
        if c == '\\' {
            t.push('/');
        } else {
            t.push(c);
        }
        proof {
            assert(full.take(i + 1) =~= full.take(i).push(c));
            assert(t@ =~= slashed(full.take(i + 1)));
        }
    }
    proof {
        assert(full.take(full.len() as int) =~= full);
        reveal_strlit("//?/");
        reveal_strlit("file:///");
    }
    let verbatim = t.len() >= 4 && t[0] == '/' && t[1] == '/' && t[2] == '?' && t[3] == '/';
    let start: usize = if verbatim {
        4
    } else {
        0
    };
    proof {
        if verbatim {
            assert(t@.subrange(0, 4) =~= "//?/"@);
        } else if t@.len() >= 4 {
            assert(t@.subrange(0, 4)[0] == t@[0]);
            assert(t@.subrange(0, 4)[1] == t@[1]);
            assert(t@.subrange(0, 4)[2] == t@[2]);
            assert(t@.subrange(0, 4)[3] == t@[3]);
            assert(t@.subrange(0, 4) != "//?/"@);
        }
    }
    let mut out = String::from_str("file:///");
    let mut k: usize = start;
    while k < t.len()
        invariant
            start <= k <= t.len(),
            out@ == "file:///"@ + t@.subrange(start as int, k as int),
        decreases t.len() - k,
    {
        push_char(&mut out, t[k]);
        proof {
            assert(t@.subrange(start as int, k + 1) =~= t@.subrange(start as int, k as int).push(t@[k as int]));
        }
        k = k + 1;
    }
    proof {
        if !verbatim {
            assert(t@.subrange(0, t.len() as int) =~= t@);
        }
    }
    out
}

} // verus!
