//! Package records and the reading of the package manager's textual output:
//! whether a listing mentions a package, which follow-up steps an installed
//! package needs, and which package identifiers a listing holds.
use vstd::prelude::*;
use crate::text::{
    chars_of,
    is_space,
    is_whitespace,
    lemma_split_lines_nonempty,
    lemma_words_of_word_end,
    mentions,
    occurs_in,
    split_lines,
    words,
};

verus! {

/// A package of the package manager.
#[derive(Debug, Clone)]
pub struct Package {
    pub id: String,
    pub version: String,
    pub description: String,
    pub installed: bool,
}

/// A store application.
#[derive(Debug, Clone)]
pub struct UwpApp {
    pub name: String,
    pub package_full_name: String,
    pub installed: bool,
}

/// A configuration step to run after a package is installed.
#[derive(Debug, Clone, Copy, PartialEq, Eq, Structural)]
pub enum PostInstall {
    ConfigureFirefox,
    ConfigureHiddify,
}

/// Whether a listing of installed packages mentions `package_id`.
pub fn list_output_mentions(stdout: &str, package_id: &str) -> (r: bool)
    ensures
        r == occurs_in(stdout@, package_id@),
{
    mentions(stdout, package_id)
}

/// The steps that follow the installation of a package: Firefox's and
/// Hiddify's packages are configured, in that order, when their name occurs in
/// the identifier.
pub open spec fn post_install_of(id: Seq<char>) -> Seq<PostInstall> {
    (if occurs_in(id, "Firefox"@) { seq![PostInstall::ConfigureFirefox] } else { seq![] })
        + (if occurs_in(id, "Hiddify"@) { seq![PostInstall::ConfigureHiddify] } else { seq![] })
}

/// The configuration steps to run after installing the package `id`.
pub fn post_install_steps(id: &str) -> (r: Vec<PostInstall>)
    ensures
        r@ == post_install_of(id@),
{
    let mut r: Vec<PostInstall> = Vec::new();
    if mentions(id, "Firefox") {
        r.push(PostInstall::ConfigureFirefox);
    }
    if mentions(id, "Hiddify") {
        r.push(PostInstall::ConfigureHiddify);
    }
    assert(r@ =~= post_install_of(id@));
    r
}

/// The package identifiers of a listing given as its lines: the first word of
/// each line after the two header lines that has at least two words.
pub open spec fn listed_ids(lines: Seq<Seq<char>>) -> Seq<Seq<char>>
    decreases lines.len(),
{
    if lines.len() <= 2 {
        seq![]
    } else if words(lines.last()).len() >= 2 {
        listed_ids(lines.drop_last()).push(words(lines.last())[0])
    } else {
        listed_ids(lines.drop_last())
    }
}

/// The package identifiers of a listing of installed packages. A carriage
/// return before a newline is whitespace, so it never ends up in a word.
pub open spec fn installed_ids_of(stdout: Seq<char>) -> Seq<Seq<char>> {
    listed_ids(split_lines(stdout))
}

/// The package identifiers in a listing of installed packages, in the order
/// in which they are listed.
pub fn installed_package_ids(stdout: &str) -> (r: Vec<String>)
    ensures
        r@.map_values(|x: String| x@) == installed_ids_of(stdout@),
{
    let h = chars_of(stdout);
    let mut r: Vec<String> = Vec::new();
    let mut line_no: usize = 0;
    let mut line_start: usize = 0;
    let mut wc: usize = 0;
    let mut in_word: bool = false;
    let mut fs: usize = 0;
    let mut fe: usize = 0;
    let mut i: usize = 0;
    proof {
        assert(h@.subrange(0, 0) =~= Seq::<char>::empty());
        assert(r@.map_values(|x: String| x@) =~= Seq::<Seq<char>>::empty());
    }
    while i < h.len()
        invariant
            h@ == stdout@,
            i <= h@.len(),
            line_no <= i,
            line_start <= i,
            split_lines(h@.subrange(0, i as int)).len() == line_no + 1,
            split_lines(h@.subrange(0, i as int)).last() == h@.subrange(line_start as int, i as int),
            r@.map_values(|x: String| x@) == listed_ids(split_lines(h@.subrange(0, i as int)).drop_last()),
            in_word == (line_start < i && !is_space(h@[i - 1])),
            wc == if words(h@.subrange(line_start as int, i as int)).len() >= 2 {
                2
            } else {
                words(h@.subrange(line_start as int, i as int)).len()
            },
            wc >= 1 ==> line_start <= fs < fe <= i && h@.subrange(fs as int, fe as int) == words(
                h@.subrange(line_start as int, i as int),
            )[0],
            in_word && wc == 1 ==> fe == i,
        decreases h@.len() - i,
    {
        let c = h[i];
        let ghost pre = h@.subrange(0, i as int);
        let ghost cur = h@.subrange(line_start as int, i as int);
        proof {
            lemma_split_lines_nonempty(pre);
            assert(h@.subrange(0, i + 1).drop_last() =~= pre);
            assert(h@.subrange(0, i + 1).last() == c);
        }
        if c == '\n' {
            proof {
                assert(split_lines(h@.subrange(0, i + 1)) == split_lines(pre).push(seq![]));
                assert(split_lines(h@.subrange(0, i + 1)).drop_last() =~= split_lines(pre));
                assert(split_lines(pre).drop_last().push(cur) =~= split_lines(pre));
            }
            if line_no >= 2 && wc >= 2 {
                let id = String::from_str(stdout.substring_char(fs, fe));
                r.push(id);
                proof {
                    assert(r@.map_values(|x: String| x@) =~= listed_ids(split_lines(pre).drop_last()).push(
                        words(cur)[0],
                    ));
                }
            }
            line_no = line_no + 1;
            line_start = i + 1;
            wc = 0;
            in_word = false;
            proof {
                assert(h@.subrange(i + 1, i + 1) =~= Seq::<char>::empty());
            }
        } else {
            let ghost next = h@.subrange(line_start as int, i + 1);
            proof {
                assert(next.drop_last() =~= cur);
                assert(next.last() == c);
                assert(split_lines(h@.subrange(0, i + 1)) == split_lines(pre).update(
                    split_lines(pre).len() - 1,
                    cur.push(c),
                ));
                assert(cur.push(c) =~= next);
                assert(split_lines(h@.subrange(0, i + 1)).drop_last() =~= split_lines(pre).drop_last());
                if in_word {
                    assert(next[next.len() - 2] == h@[i - 1]);
                }
            }
            if is_whitespace(c) {
                in_word = false;
            } else {
                if in_word {
                    proof {
                        lemma_words_of_word_end(cur);
                    }
                    if wc == 1 {
                        fe = i + 1;
                        proof {
                            assert(h@.subrange(fs as int, fe as int) =~= h@.subrange(fs as int, i as int).push(c));
                        }
                    }
                } else {
                    if wc == 0 {
                        fs = i;
                        fe = i + 1;
                        proof {
                            assert(h@.subrange(fs as int, fe as int) =~= seq![c]);
                        }
                    }
                    if wc < 2 {
                        wc = wc + 1;
                    }
                }
                in_word = true;
            }
        }
        i = i + 1;
    }
    proof {
        assert(h@.subrange(0, i as int) =~= h@);
        lemma_split_lines_nonempty(h@);
        assert(split_lines(h@).drop_last().push(split_lines(h@).last()) =~= split_lines(h@));
    }
    if line_no >= 2 && wc >= 2 {
        let id = String::from_str(stdout.substring_char(fs, fe));
        r.push(id);
        proof {
            assert(r@.map_values(|x: String| x@) =~= listed_ids(split_lines(h@).drop_last()).push(
                words(split_lines(h@).last())[0],
            ));
        }
    }
    r
}

} // verus!
