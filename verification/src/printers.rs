//! Reading the names of the installed printers out of what the host's
//! listing tool printed, with a fixed substitute when nothing usable came.

use vstd::prelude::*;
use crate::platform::{decode_lossy, utf8_lossy, Platform, ProcessOutput};
use crate::text::{
    after_first_line, chars_of, first_line, has_prefix, is_space, lemma_run_len_holds,
    lemma_run_len_is, lemma_tail_run_len_holds, run_len, scan, tail_run_len, trim, trim_bounds,
    trim_start, CharClass,
};

verus! {

/// The token that opens each relevant line of a POSIX listing.
pub open spec fn posix_tag() -> Seq<char> {
    "printer "@
}

/// The printer that one line of a listing names, if it names one.
///
/// A Windows listing holds one name per line, which is taken without the
/// white space around it; a blank line names nothing. In a POSIX listing a
/// line names a printer only if it opens with [`posix_tag`]; the name is the
/// first token after the tag.
pub open spec fn line_name(platform: Platform, line: Seq<char>) -> Option<Seq<char>> {
    match platform {
        Platform::Windows => {
            let name = trim(line);
            if name.len() > 0 {
                Some(name)
            } else {
                None
            }
        },
        Platform::Posix => {
            if posix_tag().is_prefix_of(line) {
                let rest = trim_start(line.skip(posix_tag().len() as int));
                let name = rest.take(run_len(rest, CharClass::Word) as int);
                if name.len() > 0 {
                    Some(name)
                } else {
                    None
                }
            } else {
                None
            }
        },
    }
}

/// The names that a listing holds, line by line, in the order of the lines.
pub open spec fn listed_names(platform: Platform, text: Seq<char>) -> Seq<Seq<char>>
    decreases text.len(),
{
    if text.len() == 0 {
        Seq::empty()
    } else {
        let rest = listed_names(platform, after_first_line(text));
        match line_name(platform, first_line(text)) {
            Some(name) => seq![name] + rest,
            None => rest,
        }
    }
}

/// The two entries offered when no real printer was found.
pub open spec fn fallback_names() -> Seq<Seq<char>> {
    seq!["Imprimante par défaut"@, "Microsoft Print to PDF"@]
}

/// What a caller is offered for a listing: its names, or the fallback when
/// it holds none.
pub open spec fn offered_names(platform: Platform, text: Seq<char>) -> Seq<Seq<char>> {
    if listed_names(platform, text).len() > 0 {
        listed_names(platform, text)
    } else {
        fallback_names()
    }
}

/// What holds of every name read out of a listing: it is not empty and
/// neither begins nor ends with white space, and one from a POSIX listing
/// holds no white space at all.
pub open spec fn is_entry(platform: Platform, name: Seq<char>) -> bool {
    &&& name.len() > 0
    &&& !is_space(name.first())
    &&& !is_space(name.last())
    &&& platform == Platform::Posix ==> forall|j: int|
        0 <= j < name.len() ==> !is_space(#[trigger] name[j])
}

/// The name that a line gives is never blank.
pub proof fn lemma_line_name_not_blank(platform: Platform, line: Seq<char>)
    requires
        line_name(platform, line) is Some,
    ensures
        is_entry(platform, line_name(platform, line)->0),
{
    let name = line_name(platform, line)->0;
    match platform {
        Platform::Windows => {
            let inner = trim_start(line);
            lemma_run_len_holds(line, CharClass::Space);
            lemma_tail_run_len_holds(inner, CharClass::Space);
            assert(name == inner.take(inner.len() - tail_run_len(inner, CharClass::Space)));
            assert(name.first() == line[run_len(line, CharClass::Space) as int]);
            assert(name.last() == inner[inner.len() - tail_run_len(inner, CharClass::Space) - 1]);
        },
        Platform::Posix => {
            let rest = trim_start(line.skip(posix_tag().len() as int));
            lemma_run_len_holds(rest, CharClass::Word);
            assert forall|j: int| 0 <= j < name.len() implies !is_space(#[trigger] name[j]) by {
                assert(name[j] == rest[j]);
                assert(CharClass::Word.has(rest[j]));
            }
            assert(!is_space(name[0]));
            assert(!is_space(name[name.len() - 1]));
        },
    }
}

/// No entry of a listing is blank.
pub proof fn lemma_listed_names_not_blank(platform: Platform, text: Seq<char>)
    ensures
        forall|i: int|
            0 <= i < listed_names(platform, text).len() ==> is_entry(
                platform,
                #[trigger] listed_names(platform, text)[i],
            ),
    decreases text.len(),
{
    if text.len() > 0 {
        let rest = listed_names(platform, after_first_line(text));
        lemma_listed_names_not_blank(platform, after_first_line(text));
        match line_name(platform, first_line(text)) {
            Some(name) => {
                lemma_line_name_not_blank(platform, first_line(text));
                assert forall|i: int| 0 <= i < listed_names(platform, text).len() implies is_entry(
                    platform,
                    #[trigger] listed_names(platform, text)[i],
                ) by {
                    if i > 0 {
                        assert(listed_names(platform, text)[i] == rest[i - 1]);
                    }
                }
            },
            None => {},
        }
    }
}

/// Source order: the names of a listing made of two parts, the first ended
/// by a line feed, are the names of the first part followed by the names of
/// the second.
pub proof fn lemma_listed_names_in_order(platform: Platform, head: Seq<char>, tail: Seq<char>)
    ensures
        listed_names(platform, head + seq!['\n'] + tail) == listed_names(platform, head)
            + listed_names(platform, tail),
    decreases head.len(),
{
    let text = head + seq!['\n'] + tail;
    let k = run_len(head, CharClass::InLine) as int;
    lemma_run_len_holds(head, CharClass::InLine);
    assert forall|i: int| 0 <= i < k implies CharClass::InLine.has(#[trigger] text[i]) by {
        assert(text[i] == head[i]);
    }
    assert(text[k] == '\n');
    lemma_run_len_is(text, CharClass::InLine, k);
    assert(first_line(text) =~= head.take(k));
    if head.len() == 0 {
        reveal_strlit("printer ");
        assert(after_first_line(text) =~= tail);
        assert(first_line(text).len() == 0);
        assert(trim_start(first_line(text)).len() == 0);
        assert(line_name(platform, first_line(text)) is None);
        assert(listed_names(platform, head) + listed_names(platform, tail) =~= listed_names(
            platform,
            tail,
        ));
    } else if k < head.len() {
        let rest = after_first_line(head);
        assert(after_first_line(text) =~= rest + seq!['\n'] + tail);
        lemma_listed_names_in_order(platform, rest, tail);
        match line_name(platform, first_line(head)) {
            Some(name) => {
                assert(seq![name] + (listed_names(platform, rest) + listed_names(platform, tail))
                    =~= (seq![name] + listed_names(platform, rest)) + listed_names(
                    platform,
                    tail,
                ));
            },
            None => {},
        }
    } else {
        assert(after_first_line(text) =~= tail);
        assert(head.take(k) =~= head);
        assert(after_first_line(head).len() == 0);
        assert(listed_names(platform, after_first_line(head)) =~= Seq::empty());
        match line_name(platform, first_line(head)) {
            Some(name) => {
                assert(seq![name] + Seq::<Seq<char>>::empty() =~= seq![name]);
            },
            None => {
                assert(Seq::<Seq<char>>::empty() + listed_names(platform, tail) =~= listed_names(
                    platform,
                    tail,
                ));
            },
        }
    }
}

/// Where in the line `from..to` the name of a printer stands, if the line
/// names one. `tag` holds the characters of [`posix_tag`].
fn name_bounds(
    platform: Platform,
    chars: &Vec<char>,
    from: usize,
    to: usize,
    tag: &Vec<char>,
) -> (bounds: Option<(usize, usize)>)
    requires
        from <= to <= chars@.len(),
        tag@ == posix_tag(),
    ensures
        match bounds {
            Some((start, end)) => {
                &&& from <= start < end <= to
                &&& line_name(platform, chars@.subrange(from as int, to as int)) == Some(
                    chars@.subrange(start as int, end as int),
                )
            },
            None => line_name(platform, chars@.subrange(from as int, to as int)) is None,
        },
{
    let ghost line = chars@.subrange(from as int, to as int);
    match platform {
        Platform::Windows => {
            let (start, end) = trim_bounds(chars, from, to);
            if start < end {
                Some((start, end))
            } else {
                None
            }
        },
        Platform::Posix => {
            if !has_prefix(chars, from, to, tag) {
                return None;
            }
            let after_tag = from + tag.len();
            let start = scan(chars, after_tag, to, CharClass::Space);
            let end = scan(chars, start, to, CharClass::Word);
            proof {
                let tail = line.skip(posix_tag().len() as int);
                assert(tail =~= chars@.subrange(after_tag as int, to as int));
                let rest = trim_start(tail);
                assert(rest =~= chars@.subrange(start as int, to as int));
                assert(rest.take(run_len(rest, CharClass::Word) as int) =~= chars@.subrange(
                    start as int,
                    end as int,
                ));
            }
            if start < end {
                Some((start, end))
            } else {
                None
            }
        },
    }
}

/// Reads the names of the printers out of a listing, in the order of its
/// lines.
pub fn parse_listing(platform: Platform, text: &str) -> (names: Vec<String>)
    ensures
        names.deep_view() == listed_names(platform, text@),
{
    let chars = chars_of(text);
    let tag = chars_of("printer ");
    let n = chars.len();
    let mut names: Vec<String> = Vec::new();
    let mut pos: usize = 0;
    assert(chars@.skip(0) =~= chars@);
    assert(names.deep_view() =~= Seq::<Seq<char>>::empty());
    while pos < n
        invariant
            pos <= n == chars@.len(),
            chars@ == text@,
            tag@ == posix_tag(),
            names.deep_view() + listed_names(platform, chars@.skip(pos as int)) == listed_names(
                platform,
                chars@,
            ),
        decreases n - pos,
    {
        let ghost before = names.deep_view();
        let ghost rest = chars@.skip(pos as int);
        let end = scan(&chars, pos, n, CharClass::InLine);
        let next = if end < n {
            end + 1
        } else {
            n
        };
        proof {
            assert(rest =~= chars@.subrange(pos as int, n as int));
            assert(first_line(rest) =~= chars@.subrange(pos as int, end as int));
            assert(after_first_line(rest) =~= chars@.skip(next as int));
        }
        match name_bounds(platform, &chars, pos, end, &tag) {
            Some((start, stop)) => {
                let name = text.substring_char(start, stop).to_owned();
                names.push(name);
                assert(names.deep_view() =~= before + seq![name@]);
                assert(before + (seq![name@] + listed_names(platform, chars@.skip(next as int)))
                    =~= (before + seq![name@]) + listed_names(platform, chars@.skip(next as int)));
            },
            None => {},
        }
        pos = next;
    }
    assert(listed_names(platform, chars@.skip(n as int)) =~= Seq::<Seq<char>>::empty());
    assert(names.deep_view() + Seq::<Seq<char>>::empty() =~= names.deep_view());
    names
}

/// The fixed list that stands for "no real printer found": a generic default
/// entry and a virtual PDF printer.
pub fn fallback_printers() -> (names: Vec<String>)
    ensures
        names.deep_view() == fallback_names(),
        names@.len() == 2,
{
    let mut names: Vec<String> = Vec::new();
    names.push("Imprimante par défaut".to_owned());
    names.push("Microsoft Print to PDF".to_owned());
    assert(names.deep_view() =~= fallback_names());
    names
}

/// The printers to offer for the text of a listing: the names it holds, or
/// the fallback when it holds none. The result is never empty.
pub fn printers_in(platform: Platform, text: &str) -> (names: Vec<String>)
    ensures
        names.deep_view() == offered_names(platform, text@),
        names@.len() > 0,
{
    let names = parse_listing(platform, text);
    if names.len() > 0 {
        names
    } else {
        fallback_printers()
    }
}

/// What `list_printers` answers for each way the listing tool can end.
pub open spec fn printers_for(platform: Platform, listing: Option<ProcessOutput>) -> Seq<
    Seq<char>,
> {
    match listing {
        Some(output) => if output.succeeded() {
            offered_names(platform, utf8_lossy(output.stdout@))
        } else {
            fallback_names()
        },
        None => fallback_names(),
    }
}

/// The printers to offer a caller, given how the host's listing tool ended:
/// `None` when it could not be run at all. A tool that could not be run, did
/// not exit with status zero or named no printer yields the fallback; no
/// failure is ever reported.
pub fn list_printers(platform: Platform, listing: Option<&ProcessOutput>) -> (names: Vec<String>)
    ensures
        names.deep_view() == printers_for(
            platform,
            match listing {
                Some(output) => Some(*output),
                None => None,
            },
        ),
        names@.len() > 0,
{
    match listing {
        Some(output) => {
            if output.success() {
                let text = decode_lossy(output.stdout.as_slice());
                printers_in(platform, text.as_str())
            } else {
                fallback_printers()
            }
        },
        None => fallback_printers(),
    }
}

} // verus!
