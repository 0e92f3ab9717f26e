//! Include rules: how a selection of files becomes the filter of a sync request.

use vstd::prelude::*;
use crate::text::texts;

verus! {

/// The include rule of a selection that holds nothing: the path of a file that is
/// not there.
pub const NOTHING_MARKER: &'static str = "non_existent_file_marker";

/// What is put behind a selected path to take in all that lies below it.
pub const TREE_SUFFIX: &'static str = "/**";

/// The filter block of a sync request.
#[derive(Clone, Debug, PartialEq, Eq)]
pub struct FileFilter {
    /// The patterns of what is synced, in the daemon's syntax.
    pub include_rule: Vec<String>,
}

impl View for FileFilter {
    type V = Seq<Seq<char>>;

    open spec fn view(&self) -> Seq<Seq<char>> {
        texts(self.include_rule@)
    }
}

/// A selected path without the one separator that may stand at its start.
pub open spec fn stripped(entry: Seq<char>) -> Seq<char> {
    if entry.len() > 0 && entry[0] == '/' {
        entry.drop_first()
    } else {
        entry
    }
}

/// The rule that takes in the selected path itself.
pub open spec fn exact_rule(entry: Seq<char>) -> Seq<char> {
    seq!['/'] + stripped(entry)
}

/// The rule that takes in all that lies below the selected path.
pub open spec fn tree_rule(entry: Seq<char>) -> Seq<char> {
    exact_rule(entry) + TREE_SUFFIX@
}

/// The include rules of a selection: for each selected path its exact rule and then
/// its tree rule, in the order of the selection; for a selection that holds nothing,
/// the one rule that takes in nothing.
pub open spec fn include_rules(files: Seq<Seq<char>>) -> Seq<Seq<char>> {
    if files.len() == 0 {
        seq![NOTHING_MARKER@]
    } else {
        Seq::new(
            2 * files.len(),
            |k: int|
                if k % 2 == 0 {
                    exact_rule(files[k / 2])
                } else {
                    tree_rule(files[k / 2])
                },
        )
    }
}

/// The exact rule of one selected path.
pub fn exact_rule_of(entry: &str) -> (rule: String)
    ensures
        rule@ == exact_rule(entry@),
{
    let len: usize = entry.unicode_len();
    let clean = if len > 0 && entry.get_char(0) == '/' {
        entry.substring_char(1, len)
    } else {
        entry
    };
    proof {
        reveal_strlit("/");
        assert("/"@ =~= seq!['/']);
        assert(clean@ =~= stripped(entry@));
    }
    String::from_str("/").concat(clean)
}

/// Builds the filter for a selection of files.
pub fn build_file_filter(files: &Vec<String>) -> (filter: FileFilter)
    ensures
        filter@ == include_rules(texts(files@)),
{
    let mut rules: Vec<String> = Vec::new();
    if files.len() == 0 {
        rules.push(String::from_str(NOTHING_MARKER));
        assert(texts(rules@) =~= seq![NOTHING_MARKER@]);
        return FileFilter { include_rule: rules };
    }
    let ghost selected = texts(files@);
    let mut i: usize = 0;
    while i < files.len()
        invariant
            i <= files.len(),
            selected == texts(files@),
            rules@.len() == 2 * i,
            forall|k: int| 0 <= k < i ==> #[trigger] rules@[2 * k]@ == exact_rule(selected[k]),
            forall|k: int| 0 <= k < i ==> #[trigger] rules@[2 * k + 1]@ == tree_rule(selected[k]),
        decreases files.len() - i,
    {
        let exact = exact_rule_of(files[i].as_str());
        let tree = exact.clone().concat(TREE_SUFFIX);
        rules.push(exact);
        rules.push(tree);
        i = i + 1;
    }
    proof {
        let expected = include_rules(selected);
        let built = texts(rules@);
        assert(built.len() == expected.len());
        assert forall|k: int| 0 <= k < built.len() implies built[k] == expected[k] by {
            let half = k / 2;
            if k % 2 == 0 {
                assert(k == 2 * half);
                assert(rules@[2 * half]@ == exact_rule(selected[half]));
            } else {
                assert(k == 2 * half + 1);
                assert(rules@[2 * half + 1]@ == tree_rule(selected[half]));
            }
        }
        assert(built =~= expected);
    }
    FileFilter { include_rule: rules }
}

/// A selection of `n` paths, `n` above zero, gives `2n` rules: those at the places
/// `2k` and `2k + 1` are the exact rule and the tree rule of the path at place `k`.
pub proof fn law_two_rules_per_entry(files: Seq<Seq<char>>, k: int)
    requires
        0 <= k < files.len(),
    ensures
        include_rules(files).len() == 2 * files.len(),
        include_rules(files)[2 * k] == seq!['/'] + stripped(files[k]),
        include_rules(files)[2 * k + 1] == seq!['/'] + stripped(files[k]) + seq!['/', '*', '*'],
{
    reveal_strlit("/**");
    assert(TREE_SUFFIX@ =~= seq!['/', '*', '*']);
    assert((2 * k) % 2 == 0 && (2 * k) / 2 == k);
    assert((2 * k + 1) % 2 == 1 && (2 * k + 1) / 2 == k);
}

/// A selection that holds nothing gives one rule, and that rule is none that a
/// selected path could give: every rule of a path starts with a separator, and the
/// marker does not.
pub proof fn law_empty_selection_takes_nothing(entry: Seq<char>)
    ensures
        include_rules(Seq::<Seq<char>>::empty()) == seq![NOTHING_MARKER@],
        NOTHING_MARKER@ != exact_rule(entry),
        NOTHING_MARKER@ != tree_rule(entry),
        !NOTHING_MARKER@.contains('/'),
{
    reveal_strlit("non_existent_file_marker");
    let marker = NOTHING_MARKER@;
    assert(marker.len() == 24);
    assert(marker[0] == 'n');
    assert(exact_rule(entry)[0] == '/');
    assert(tree_rule(entry)[0] == '/');
    assert forall|i: int| 0 <= i < marker.len() implies marker[i] != '/' by {}
}

} // verus!
