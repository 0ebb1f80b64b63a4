//! The configuration header renderer: from feature flags and defines to the
//! text of a header.
//!
//! A feature becomes `#define QT_FEATURE_<name> 1` when it is enabled and
//! `#define QT_FEATURE_<name> -1` when it is not. A define becomes
//! `#define <key> <value>`, with the value as it was given. Every entry is
//! one line, in the order of the entries; the renderer sorts nothing, so the
//! same entries in the same order always give the same text.

use vstd::prelude::*;
use vstd::string::*;
use crate::text::{contains, occurs_at};

verus! {

/// The line that defines the macro `key` as `value`.
pub open spec fn define_line(key: Seq<char>, value: Seq<char>) -> Seq<char> {
    "#define "@ + key + " "@ + value + "\n"@
}

/// The value of a feature's macro: `1` when enabled, `-1` when not.
pub open spec fn feature_value(enabled: bool) -> Seq<char> {
    if enabled {
        "1"@
    } else {
        "-1"@
    }
}

/// The line that defines the macro of the feature `name`.
pub open spec fn feature_line(name: Seq<char>, enabled: bool) -> Seq<char> {
    "#define QT_FEATURE_"@ + name + " "@ + feature_value(enabled) + "\n"@
}

/// The lines of the first `n` defines, one after the other.
pub open spec fn define_lines(defines: Seq<(Seq<char>, Seq<char>)>, n: nat) -> Seq<char>
    decreases n,
{
    if n == 0 {
        Seq::empty()
    } else {
        define_lines(defines, (n - 1) as nat) + define_line(defines[n - 1].0, defines[n - 1].1)
    }
}

/// The lines of the first `n` features, one after the other.
pub open spec fn feature_lines(features: Seq<(Seq<char>, bool)>, n: nat) -> Seq<char>
    decreases n,
{
    if n == 0 {
        Seq::empty()
    } else {
        feature_lines(features, (n - 1) as nat) + feature_line(
            features[n - 1].0,
            features[n - 1].1,
        )
    }
}

/// The block of all defines.
pub open spec fn define_string(defines: Seq<(Seq<char>, Seq<char>)>) -> Seq<char> {
    define_lines(defines, defines.len())
}

/// The block of all features.
pub open spec fn feature_defines(features: Seq<(Seq<char>, bool)>) -> Seq<char> {
    feature_lines(features, features.len())
}

/// The text of a configuration header: the block of features, a blank line,
/// and the block of defines.
pub open spec fn config_header(
    defines: Seq<(Seq<char>, Seq<char>)>,
    features: Seq<(Seq<char>, bool)>,
) -> Seq<char> {
    feature_defines(features) + "\n"@ + define_string(defines)
}

/// Every feature has its line in the block of features, at the place that
/// the lines before it leave: for an enabled feature `name` the block holds
/// `#define QT_FEATURE_<name> 1`, for a disabled one
/// `#define QT_FEATURE_<name> -1`.
pub proof fn lemma_feature_has_its_line(features: Seq<(Seq<char>, bool)>, i: int)
    requires
        0 <= i < features.len(),
    ensures
        occurs_at(
            feature_defines(features),
            feature_line(features[i].0, features[i].1),
            feature_lines(features, i as nat).len() as int,
        ),
        contains(feature_defines(features), feature_line(features[i].0, features[i].1)),
{
    lemma_feature_line_within(features, features.len(), i);
}

/// The line of feature `i` stands in the lines of the first `n` features.
proof fn lemma_feature_line_within(features: Seq<(Seq<char>, bool)>, n: nat, i: int)
    requires
        0 <= i < n <= features.len(),
    ensures
        occurs_at(
            feature_lines(features, n),
            feature_line(features[i].0, features[i].1),
            feature_lines(features, i as nat).len() as int,
        ),
    decreases n,
{
    let line = feature_line(features[i].0, features[i].1);
    let at = feature_lines(features, i as nat).len() as int;
    let before = feature_lines(features, (n - 1) as nat);
    let last = feature_line(features[n - 1].0, features[n - 1].1);
    if i == n - 1 {
        assert((before + last).subrange(at, at + line.len()) =~= line);
    } else {
        lemma_feature_line_within(features, (n - 1) as nat, i);
        assert((before + last).subrange(at, at + line.len()) =~= before.subrange(
            at,
            at + line.len(),
        ));
    }
}

/// Every define has its line in the block of defines, at the place that the
/// lines before it leave.
pub proof fn lemma_define_has_its_line(defines: Seq<(Seq<char>, Seq<char>)>, i: int)
    requires
        0 <= i < defines.len(),
    ensures
        occurs_at(
            define_string(defines),
            define_line(defines[i].0, defines[i].1),
            define_lines(defines, i as nat).len() as int,
        ),
        contains(define_string(defines), define_line(defines[i].0, defines[i].1)),
{
    lemma_define_line_within(defines, defines.len(), i);
}

/// The line of define `i` stands in the lines of the first `n` defines.
proof fn lemma_define_line_within(defines: Seq<(Seq<char>, Seq<char>)>, n: nat, i: int)
    requires
        0 <= i < n <= defines.len(),
    ensures
        occurs_at(
            define_lines(defines, n),
            define_line(defines[i].0, defines[i].1),
            define_lines(defines, i as nat).len() as int,
        ),
    decreases n,
{
    let line = define_line(defines[i].0, defines[i].1);
    let at = define_lines(defines, i as nat).len() as int;
    let before = define_lines(defines, (n - 1) as nat);
    let last = define_line(defines[n - 1].0, defines[n - 1].1);
    if i == n - 1 {
        assert((before + last).subrange(at, at + line.len()) =~= line);
    } else {
        lemma_define_line_within(defines, (n - 1) as nat, i);
        assert((before + last).subrange(at, at + line.len()) =~= before.subrange(
            at,
            at + line.len(),
        ));
    }
}

/// A configuration header holds the line of each of its features and the
/// line of each of its defines: the features before the blank line, the
/// defines after it.
pub proof fn lemma_config_header_holds_every_line(
    defines: Seq<(Seq<char>, Seq<char>)>,
    features: Seq<(Seq<char>, bool)>,
)
    ensures
        forall|i: int|
            0 <= i < features.len() ==> occurs_at(
                config_header(defines, features),
                #[trigger] feature_line(features[i].0, features[i].1),
                feature_lines(features, i as nat).len() as int,
            ),
        forall|j: int|
            0 <= j < defines.len() ==> occurs_at(
                config_header(defines, features),
                #[trigger] define_line(defines[j].0, defines[j].1),
                (feature_defines(features).len() + "\n"@.len() + define_lines(
                    defines,
                    j as nat,
                ).len()) as int,
            ),
{
    let header = config_header(defines, features);
    let head = feature_defines(features);
    let tail = define_string(defines);
    assert forall|i: int| 0 <= i < features.len() implies occurs_at(
        header,
        #[trigger] feature_line(features[i].0, features[i].1),
        feature_lines(features, i as nat).len() as int,
    ) by {
        lemma_feature_has_its_line(features, i);
        let line = feature_line(features[i].0, features[i].1);
        let at = feature_lines(features, i as nat).len() as int;
        assert(header.subrange(at, at + line.len()) =~= head.subrange(at, at + line.len()));
    }
    assert forall|j: int| 0 <= j < defines.len() implies occurs_at(
        header,
        #[trigger] define_line(defines[j].0, defines[j].1),
        (head.len() + "\n"@.len() + define_lines(defines, j as nat).len()) as int,
    ) by {
        lemma_define_has_its_line(defines, j);
        let line = define_line(defines[j].0, defines[j].1);
        let at = define_lines(defines, j as nat).len() as int;
        let shift = head.len() + "\n"@.len();
        assert(header.subrange(shift + at, shift + at + line.len()) =~= tail.subrange(
            at,
            at + line.len(),
        ));
    }
}

/// A feature's line reads `#define QT_FEATURE_<name> 1` followed by a newline
/// when the feature is enabled, and `#define QT_FEATURE_<name> -1` followed
/// by a newline when it is not.
pub proof fn lemma_feature_line_text(name: Seq<char>)
    ensures
        feature_line(name, true) == "#define QT_FEATURE_"@ + name + " 1\n"@,
        feature_line(name, false) == "#define QT_FEATURE_"@ + name + " -1\n"@,
{
    reveal_strlit(" ");
    reveal_strlit("1");
    reveal_strlit("-1");
    reveal_strlit("\n");
    reveal_strlit(" 1\n");
    reveal_strlit(" -1\n");
    assert(" "@ + "1"@ + "\n"@ =~= " 1\n"@);
    assert(" "@ + "-1"@ + "\n"@ =~= " -1\n"@);
    assert(feature_line(name, true) =~= "#define QT_FEATURE_"@ + name + (" "@ + "1"@ + "\n"@));
    assert(feature_line(name, false) =~= "#define QT_FEATURE_"@ + name + (" "@ + "-1"@ + "\n"@));
}

/// Without entries there is no text: an empty set of features renders as the
/// empty string, and so does an empty set of defines.
pub proof fn lemma_empty_renders_empty()
    ensures
        feature_defines(Seq::empty()) == Seq::<char>::empty(),
        define_string(Seq::empty()) == Seq::<char>::empty(),
{
}

/// Creates the text that defines each of `defines` as a macro, one line per
/// define, in the order given.
pub fn make_define_string(defines: &[(String, String)]) -> (text: String)
    ensures
        text@ == define_string(defines.deep_view()),
{
    let ghost entries = defines.deep_view();
    let mut text = String::new();
    let mut i: usize = 0;
    while i < defines.len()
        invariant
            i <= defines@.len(),
            entries == defines.deep_view(),
            text@ == define_lines(entries, i as nat),
        decreases defines@.len() - i,
    {
        let ghost before = text@;
        proof {
            assert(entries[i as int] == (defines@[i as int].0@, defines@[i as int].1@));
        }
        text.append("#define ");
        text.append(defines[i].0.as_str());
        text.append(" ");
        text.append(defines[i].1.as_str());
        text.append("\n");
        proof {
            assert(text@ =~= before + define_line(entries[i as int].0, entries[i as int].1));
        }
        i += 1;
    }
    text
}

/// Creates the text that defines the `QT_FEATURE_` macro of each of
/// `features`, one line per feature, in the order given.
pub fn make_feature_defines(features: &[(String, bool)]) -> (text: String)
    ensures
        text@ == feature_defines(features.deep_view()),
{
    let ghost entries = features.deep_view();
    let mut text = String::new();
    let mut i: usize = 0;
    while i < features.len()
        invariant
            i <= features@.len(),
            entries == features.deep_view(),
            text@ == feature_lines(entries, i as nat),
        decreases features@.len() - i,
    {
        let ghost before = text@;
        proof {
            assert(entries[i as int] == (features@[i as int].0@, features@[i as int].1));
        }
        let value = if features[i].1 {
            "1"
        } else {
            "-1"
        };
        text.append("#define QT_FEATURE_");
        text.append(features[i].0.as_str());
        text.append(" ");
        text.append(value);
        text.append("\n");
        proof {
            assert(text@ =~= before + feature_line(entries[i as int].0, entries[i as int].1));
        }
        i += 1;
    }
    text
}

/// Renders a configuration header from its defines and features: the block
/// of features, a blank line, and the block of defines.
pub fn render(defines: &[(String, String)], features: &[(String, bool)]) -> (text: String)
    ensures
        text@ == config_header(defines.deep_view(), features.deep_view()),
{
    let mut text = make_feature_defines(features);
    text.append("\n");
    let block = make_define_string(defines);
    text.append(block.as_str());
    text
}

} // verus!
