//! The condition lists that select among the targets of a package's
//! `exports` and `imports` maps.
//!
//! Three lists are used: a default list, and one each for specifiers that
//! are imported and for specifiers that are required. Each keeps the order
//! in which its tokens were first named and holds no token twice.

use itertools::Itertools;
use vstd::prelude::*;
use crate::text::{extend_texts, push_text};
use crate::types::Platform;

verus! {

/// The items of `items` in order, each kept only where it occurs first.
pub open spec fn first_occurrences(items: Seq<Seq<char>>) -> Seq<Seq<char>>
    decreases items.len(),
{
    if items.len() == 0 {
        Seq::empty()
    } else {
        let kept = first_occurrences(items.drop_last());
        if kept.contains(items.last()) {
            kept
        } else {
            kept.push(items.last())
        }
    }
}

/// The token that a platform adds to the default list, if any.
pub open spec fn platform_conditions(platform: Platform) -> Seq<Seq<char>> {
    match platform {
        Platform::Node => seq!["node"@],
        Platform::Browser => seq!["browser"@],
        Platform::Neutral => Seq::empty(),
    }
}

/// The default list: the user's conditions, then `default`, then the
/// platform's token, each kept where it is first named.
pub open spec fn default_conditions(user: Seq<Seq<char>>, platform: Platform) -> Seq<Seq<char>> {
    first_occurrences(user + seq!["default"@] + platform_conditions(platform))
}

/// The list for imported specifiers: `import`, then the default list.
pub open spec fn import_conditions(default_list: Seq<Seq<char>>) -> Seq<Seq<char>> {
    first_occurrences(seq!["import"@] + default_list)
}

/// The list for required specifiers: `require`, then the default list.
pub open spec fn require_conditions(default_list: Seq<Seq<char>>) -> Seq<Seq<char>> {
    first_occurrences(seq!["require"@] + default_list)
}

/// The conditions a user named; none where the option was left out.
pub open spec fn user_conditions(named: Option<Seq<Seq<char>>>) -> Seq<Seq<char>> {
    match named {
        Some(list) => list,
        None => Seq::empty(),
    }
}

/// What occurs in `first_occurrences(items)` is what occurs in `items`.
pub proof fn lemma_first_occurrences_members(items: Seq<Seq<char>>)
    ensures
        forall|x: Seq<char>| #[trigger] first_occurrences(items).contains(x) <==> items.contains(x),
    decreases items.len(),
{
    if items.len() > 0 {
        let front = items.drop_last();
        let kept = first_occurrences(front);
        lemma_first_occurrences_members(front);
        assert forall|x: Seq<char>| first_occurrences(items).contains(x) <==> items.contains(
            x,
        ) by {
            let all = first_occurrences(items);
            assert(kept.contains(x) <==> front.contains(x));
            assert(kept.contains(items.last()) <==> front.contains(items.last()));
            if items.contains(x) {
                let i = choose|i: int| 0 <= i < items.len() && items[i] == x;
                if i < front.len() {
                    assert(front[i] == x);
                    assert(front.contains(x));
                    let j = choose|j: int| 0 <= j < kept.len() && kept[j] == x;
                    assert(all[j] == x);
                } else if kept.contains(x) {
                    assert(all == kept);
                } else {
                    assert(all[kept.len() as int] == x);
                }
                assert(all.contains(x));
            }
            if all.contains(x) {
                let j = choose|j: int| 0 <= j < all.len() && all[j] == x;
                if j < kept.len() {
                    assert(kept[j] == x);
                    assert(kept.contains(x));
                    let i = choose|i: int| 0 <= i < front.len() && front[i] == x;
                    assert(items[i] == x);
                } else {
                    assert(items[items.len() - 1] == x);
                }
                assert(items.contains(x));
            }
        }
    }
}

/// `first_occurrences(items)` holds nothing twice.
pub proof fn lemma_first_occurrences_no_duplicates(items: Seq<Seq<char>>)
    ensures
        first_occurrences(items).no_duplicates(),
    decreases items.len(),
{
    if items.len() > 0 {
        lemma_first_occurrences_no_duplicates(items.drop_last());
    }
}

/// `first_occurrences(items)` begins as `items` does.
pub proof fn lemma_first_occurrences_head(items: Seq<Seq<char>>)
    requires
        items.len() > 0,
    ensures
        first_occurrences(items).len() > 0,
        first_occurrences(items)[0] == items[0],
    decreases items.len(),
{
    if items.len() == 1 {
        assert(items.drop_last().len() == 0);
        assert(first_occurrences(items.drop_last()) =~= Seq::empty());
    } else {
        lemma_first_occurrences_head(items.drop_last());
    }
}

/// A list that holds nothing twice is its own `first_occurrences`.
pub proof fn lemma_first_occurrences_of_distinct(items: Seq<Seq<char>>)
    requires
        items.no_duplicates(),
    ensures
        first_occurrences(items) == items,
    decreases items.len(),
{
    if items.len() > 0 {
        let front = items.drop_last();
        lemma_first_occurrences_of_distinct(front);
        if front.contains(items.last()) {
            let i = choose|i: int| 0 <= i < front.len() && front[i] == items.last();
            assert(items[i] == items[items.len() - 1]);
        }
        assert(front.push(items.last()) =~= items);
    } else {
        assert(items =~= Seq::empty());
    }
}

/// The default list holds `default`, the user's conditions and the
/// platform's token, nothing else, and none of them twice.
pub proof fn law_default_conditions_members(user: Seq<Seq<char>>, platform: Platform)
    ensures
        forall|x: Seq<char>|
            #[trigger] default_conditions(user, platform).contains(x) <==> (x == "default"@
                || user.contains(x) || platform_conditions(platform).contains(x)),
        default_conditions(user, platform).no_duplicates(),
{
    let all = user + seq!["default"@] + platform_conditions(platform);
    lemma_first_occurrences_members(all);
    lemma_first_occurrences_no_duplicates(all);
    assert forall|x: Seq<char>|
        all.contains(x) <==> (x == "default"@ || user.contains(x) || platform_conditions(
            platform,
        ).contains(x)) by {
        let token = platform_conditions(platform);
        if x == "default"@ {
            assert(all[user.len() as int] == x);
        }
        if user.contains(x) {
            let i = choose|i: int| 0 <= i < user.len() && user[i] == x;
            assert(all[i] == x);
        }
        if token.contains(x) {
            let i = choose|i: int| 0 <= i < token.len() && token[i] == x;
            assert(all[user.len() + 1 + i] == x);
        }
        if all.contains(x) {
            let i = choose|i: int| 0 <= i < all.len() && all[i] == x;
            if i < user.len() {
                assert(user[i] == x);
            } else if i == user.len() {
            } else {
                assert(token[i - 1 - user.len()] == x);
            }
        }
    }
}

/// For every platform the default list holds `default`. It holds `node`
/// exactly on Node and `browser` exactly on Browser, as long as the user's
/// own conditions do not name the token of another platform.
pub proof fn law_default_conditions_name_the_platform(user: Seq<Seq<char>>, platform: Platform)
    requires
        user.contains("node"@) ==> platform == Platform::Node,
        user.contains("browser"@) ==> platform == Platform::Browser,
    ensures
        default_conditions(user, platform).contains("default"@),
        default_conditions(user, platform).contains("node"@) <==> platform == Platform::Node,
        default_conditions(user, platform).contains("browser"@) <==> platform == Platform::Browser,
{
    reveal_strlit("default");
    reveal_strlit("node");
    reveal_strlit("browser");
    assert("default"@ != "node"@ && "default"@ != "browser"@ && "node"@ != "browser"@) by {
        assert("default"@[0] == 'd' && "node"@[0] == 'n' && "browser"@[0] == 'b');
    }
    law_default_conditions_members(user, platform);
    let token = platform_conditions(platform);
    assert forall|x: Seq<char>| token.contains(x) <==> (token.len() == 1 && token[0] == x) by {
        if token.contains(x) {
            let i = choose|i: int| 0 <= i < token.len() && token[i] == x;
            assert(i == 0);
        }
    }
    let list = default_conditions(user, platform);
    assert(token.contains("node"@) <==> platform == Platform::Node);
    assert(token.contains("browser"@) <==> platform == Platform::Browser);
    assert(list.contains("node"@) <==> ("node"@ == "default"@ || user.contains("node"@)
        || token.contains("node"@)));
    assert(list.contains("browser"@) <==> ("browser"@ == "default"@ || user.contains("browser"@)
        || token.contains("browser"@)));
}

/// What holds of a list that `token` leads: it holds `token` and all of
/// `rest`, nothing else, none of them twice, and `token` comes first.
proof fn lemma_led_by(token: Seq<char>, rest: Seq<Seq<char>>)
    ensures
        forall|x: Seq<char>|
            #[trigger] first_occurrences(seq![token] + rest).contains(x) <==> (x == token
                || rest.contains(x)),
        first_occurrences(seq![token] + rest).no_duplicates(),
        first_occurrences(seq![token] + rest)[0] == token,
        rest.no_duplicates() && !rest.contains(token) ==> first_occurrences(seq![token] + rest)
            == seq![token] + rest,
{
    let all = seq![token] + rest;
    lemma_first_occurrences_members(all);
    lemma_first_occurrences_no_duplicates(all);
    lemma_first_occurrences_head(all);
    assert forall|x: Seq<char>| all.contains(x) <==> (x == token || rest.contains(x)) by {
        if x == token {
            assert(all[0] == x);
        }
        if rest.contains(x) {
            let i = choose|i: int| 0 <= i < rest.len() && rest[i] == x;
            assert(all[i + 1] == x);
        }
        if all.contains(x) {
            let i = choose|i: int| 0 <= i < all.len() && all[i] == x;
            if i > 0 {
                assert(rest[i - 1] == x);
            }
        }
    }
    if rest.no_duplicates() && !rest.contains(token) {
        assert forall|i: int, j: int| 0 <= i < all.len() && 0 <= j < all.len() && i != j implies all[i]
            != all[j] by {
            if i > 0 && j > 0 {
                assert(rest[i - 1] != rest[j - 1]);
            } else if i > 0 {
                assert(rest.contains(rest[i - 1]));
            } else {
                assert(rest.contains(rest[j - 1]));
            }
        }
        lemma_first_occurrences_of_distinct(all);
    }
}

/// The import list is `import` and the default list, the require list is
/// `require` and the default list: each holds its own token first, then all
/// of the default list, nothing else, and nothing twice. The two lists are
/// never the same.
pub proof fn law_import_and_require_conditions(default_list: Seq<Seq<char>>)
    ensures
        forall|x: Seq<char>|
            #[trigger] import_conditions(default_list).contains(x) <==> (x == "import"@
                || default_list.contains(x)),
        forall|x: Seq<char>|
            #[trigger] require_conditions(default_list).contains(x) <==> (x == "require"@
                || default_list.contains(x)),
        import_conditions(default_list).no_duplicates(),
        require_conditions(default_list).no_duplicates(),
        import_conditions(default_list)[0] == "import"@,
        require_conditions(default_list)[0] == "require"@,
        import_conditions(default_list) != require_conditions(default_list),
        default_list.no_duplicates() && !default_list.contains("import"@) ==> import_conditions(
            default_list,
        ) == seq!["import"@] + default_list,
        default_list.no_duplicates() && !default_list.contains("require"@) ==> require_conditions(
            default_list,
        ) == seq!["require"@] + default_list,
{
    reveal_strlit("import");
    reveal_strlit("require");
    lemma_led_by("import"@, default_list);
    lemma_led_by("require"@, default_list);
    assert("import"@ != "require"@) by {
        assert("import"@[0] == 'i' && "require"@[0] == 'r');
    }
}

/// `Itertools::unique`, collected: the strings of `items` in order, each
/// kept where it occurs first and dropped where it occurs again.
#[verifier::external_body]
pub(crate) fn unique(items: Vec<String>) -> (kept: Vec<String>)
    ensures
        kept.deep_view() == first_occurrences(items.deep_view()),
{
    items.into_iter().unique().collect()
}

/// The three condition lists of a resolver.
#[derive(Debug)]
pub struct ConditionLists {
    pub default_list: Vec<String>,
    pub import_list: Vec<String>,
    pub require_list: Vec<String>,
}

/// A list that starts with `token` and goes on with `rest`, without
/// repetitions.
fn led_by(token: &str, rest: &Vec<String>) -> (list: Vec<String>)
    ensures
        list.deep_view() == first_occurrences(seq![token@] + rest.deep_view()),
{
    let mut list: Vec<String> = Vec::new();
    list.push(token.to_owned());
    assert(list.deep_view() =~= seq![token@]);
    extend_texts(&mut list, rest);
    unique(list)
}

/// Builds the three condition lists from the conditions the user named and
/// the platform.
pub fn condition_lists(named: &Option<Vec<String>>, platform: Platform) -> (lists: ConditionLists)
    ensures
        lists.default_list.deep_view() == default_conditions(
            user_conditions(named.deep_view()),
            platform,
        ),
        lists.import_list.deep_view() == import_conditions(lists.default_list.deep_view()),
        lists.require_list.deep_view() == require_conditions(lists.default_list.deep_view()),
{
    let mut all: Vec<String> = Vec::new();
    assert(all.deep_view() =~= Seq::<Seq<char>>::empty());
    match named {
        Some(list) => {
            extend_texts(&mut all, list);
        },
        None => {},
    }
    assert(all.deep_view() =~= user_conditions(named.deep_view()));
    push_text(&mut all, "default");
    let ghost led = all.deep_view();
    assert(led =~= user_conditions(named.deep_view()) + seq!["default"@]);
    match platform {
        Platform::Node => {
            all.push("node".to_owned());
            assert(all.deep_view() =~= led + seq!["node"@]);
        },
        Platform::Browser => {
            all.push("browser".to_owned());
            assert(all.deep_view() =~= led + seq!["browser"@]);
        },
        Platform::Neutral => {
            assert(all.deep_view() =~= led + Seq::<Seq<char>>::empty());
        },
    }
    let default_list = unique(all);
    let import_list = led_by("import", &default_list);
    let require_list = led_by("require", &default_list);
    ConditionLists { default_list, import_list, require_list }
}

} // verus!
