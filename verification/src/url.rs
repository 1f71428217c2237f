//! Text of request URLs: decimal identifiers and path segments joined to a base URL.

use vstd::prelude::*;
use vstd::string::StringExecFns;

verus! {

/// The character that stands for the decimal digit `d`.
pub open spec fn digit_char(d: nat) -> char
    recommends
        d < 10,
{
    if d == 0 {
        '0'
    } else if d == 1 {
        '1'
    } else if d == 2 {
        '2'
    } else if d == 3 {
        '3'
    } else if d == 4 {
        '4'
    } else if d == 5 {
        '5'
    } else if d == 6 {
        '6'
    } else if d == 7 {
        '7'
    } else if d == 8 {
        '8'
    } else {
        '9'
    }
}

/// The decimal numeral of `n`: most significant digit first, no sign, no
/// leading zero (zero itself is the single digit `0`).
pub open spec fn decimal(n: nat) -> Seq<char>
    decreases n,
{
    if n < 10 {
        seq![digit_char(n)]
    } else {
        decimal(n / 10).push(digit_char(n % 10))
    }
}

/// Whether a character is a decimal digit.
pub open spec fn is_digit(c: char) -> bool {
    '0' <= c && c <= '9'
}

/// The number that a digit stands for.
pub open spec fn digit_value(c: char) -> nat
    recommends
        is_digit(c),
{
    (c as u32 - '0' as u32) as nat
}

/// The number that a decimal numeral denotes.
pub open spec fn digits_value(digits: Seq<char>) -> nat
    decreases digits.len(),
{
    if digits.len() == 0 {
        0
    } else {
        digits_value(digits.drop_last()) * 10 + digit_value(digits.last())
    }
}

/// A base URL followed by a path.
pub open spec fn joined(base_url: Seq<char>, path: Seq<char>) -> Seq<char> {
    base_url + path
}

/// The path of a collection inside a project: `/projects/`, the project's
/// id, a slash and the collection's name.
pub open spec fn collection_path(project_id: u64, collection: Seq<char>) -> Seq<char> {
    "/projects/"@ + decimal(project_id as nat) + "/"@ + collection
}

/// The path of one item of a collection inside a project: the collection's
/// path, a slash and the item's id.
pub open spec fn item_path(project_id: u64, collection: Seq<char>, item_id: u64) -> Seq<char> {
    collection_path(project_id, collection) + "/"@ + decimal(item_id as nat)
}

/// A digit character is a digit and stands for the number it was made from.
pub proof fn lemma_digit_char(d: nat)
    requires
        d < 10,
    ensures
        is_digit(digit_char(d)),
        digit_value(digit_char(d)) == d,
{
}

/// A decimal numeral is never empty and holds digits only.
pub proof fn lemma_decimal_digits(n: nat)
    ensures
        decimal(n).len() >= 1,
        forall|i: int| 0 <= i < decimal(n).len() ==> is_digit(#[trigger] decimal(n)[i]),
    decreases n,
{
    if n < 10 {
        lemma_digit_char(n);
    } else {
        lemma_decimal_digits(n / 10);
        lemma_digit_char(n % 10);
    }
}

/// The numeral of a number denotes that number.
pub proof fn lemma_decimal_denotes(n: nat)
    ensures
        digits_value(decimal(n)) == n,
    decreases n,
{
    let digits = decimal(n);
    if n < 10 {
        lemma_digit_char(n);
        assert(digits.drop_last() =~= Seq::<char>::empty());
        assert(digits_value(digits.drop_last()) == 0);
    } else {
        lemma_decimal_denotes(n / 10);
        lemma_digit_char(n % 10);
        assert(digits.drop_last() =~= decimal(n / 10));
    }
}

/// Two numbers with the same numeral are the same number.
pub proof fn lemma_decimal_injective(a: nat, b: nat)
    requires
        decimal(a) == decimal(b),
    ensures
        a == b,
{
    lemma_decimal_denotes(a);
    lemma_decimal_denotes(b);
}

/// Two numerals, each followed by a text that starts with a slash, make the
/// same text only if they are the same numeral followed by the same text.
proof fn lemma_numeral_then_slash(a: nat, rest_a: Seq<char>, b: nat, rest_b: Seq<char>)
    requires
        decimal(a) + rest_a == decimal(b) + rest_b,
        rest_a.len() > 0 && rest_a[0] == '/',
        rest_b.len() > 0 && rest_b[0] == '/',
    ensures
        a == b,
        rest_a == rest_b,
{
    let da = decimal(a);
    let db = decimal(b);
    let whole_a = da + rest_a;
    let whole_b = db + rest_b;
    lemma_decimal_digits(a);
    lemma_decimal_digits(b);
    if da.len() < db.len() {
        assert(whole_a[da.len() as int] == rest_a[0]);
        assert(whole_b[da.len() as int] == db[da.len() as int]);
        assert(is_digit(db[da.len() as int]));
        assert(false);
    }
    if db.len() < da.len() {
        assert(whole_b[db.len() as int] == rest_b[0]);
        assert(whole_a[db.len() as int] == da[db.len() as int]);
        assert(is_digit(da[db.len() as int]));
        assert(false);
    }
    assert(da =~= db) by {
        assert forall|i: int| 0 <= i < da.len() implies da[i] == db[i] by {
            assert(whole_a[i] == da[i]);
            assert(whole_b[i] == db[i]);
        }
    }
    assert(rest_a =~= rest_b) by {
        assert(rest_a.len() == whole_a.len() - da.len());
        assert(rest_b.len() == whole_b.len() - db.len());
        assert forall|i: int| 0 <= i < rest_a.len() implies rest_a[i] == rest_b[i] by {
            assert(whole_a[da.len() + i] == rest_a[i]);
            assert(whole_b[db.len() + i] == rest_b[i]);
        }
    }
    lemma_decimal_injective(a, b);
}

/// A text cut off after a common prefix.
proof fn lemma_same_prefix(prefix: Seq<char>, a: Seq<char>, b: Seq<char>)
    requires
        prefix + a == prefix + b,
    ensures
        a == b,
{
    assert(a =~= (prefix + a).subrange(prefix.len() as int, (prefix + a).len() as int));
    assert(b =~= (prefix + b).subrange(prefix.len() as int, (prefix + b).len() as int));
}

/// The same collection in two projects has the same path only if the two
/// are one project.
pub proof fn lemma_collection_path_injective(first: u64, second: u64, collection: Seq<char>)
    requires
        collection_path(first, collection) == collection_path(second, collection),
    ensures
        first == second,
{
    reveal_strlit("/");
    let head = "/projects/"@;
    let rest = "/"@ + collection;
    assert(collection_path(first, collection) =~= head + (decimal(first as nat) + rest));
    assert(collection_path(second, collection) =~= head + (decimal(second as nat) + rest));
    lemma_same_prefix(head, decimal(first as nat) + rest, decimal(second as nat) + rest);
    lemma_numeral_then_slash(first as nat, rest, second as nat, rest);
}

/// Two items of the same collection have the same path only if they are
/// the same item of the same project.
pub proof fn lemma_item_path_injective(
    first_project: u64,
    first_item: u64,
    second_project: u64,
    second_item: u64,
    collection: Seq<char>,
)
    requires
        item_path(first_project, collection, first_item) == item_path(
            second_project,
            collection,
            second_item,
        ),
    ensures
        first_project == second_project,
        first_item == second_item,
{
    reveal_strlit("/");
    let head = "/projects/"@;
    let middle = "/"@ + collection + "/"@;
    let first_rest = middle + decimal(first_item as nat);
    let second_rest = middle + decimal(second_item as nat);
    assert(item_path(first_project, collection, first_item) =~= head + (decimal(
        first_project as nat,
    ) + first_rest));
    assert(item_path(second_project, collection, second_item) =~= head + (decimal(
        second_project as nat,
    ) + second_rest));
    lemma_same_prefix(
        head,
        decimal(first_project as nat) + first_rest,
        decimal(second_project as nat) + second_rest,
    );
    lemma_numeral_then_slash(
        first_project as nat,
        first_rest,
        second_project as nat,
        second_rest,
    );
    lemma_same_prefix(middle, decimal(first_item as nat), decimal(second_item as nat));
    lemma_decimal_injective(first_item as nat, second_item as nat);
}

/// The one-character text of a decimal digit.
fn digit_text(d: u64) -> (text: &'static str)
    requires
        d < 10,
    ensures
        text@ == seq![digit_char(d as nat)],
{
    proof {
        reveal_strlit("0");
        reveal_strlit("1");
        reveal_strlit("2");
        reveal_strlit("3");
        reveal_strlit("4");
        reveal_strlit("5");
        reveal_strlit("6");
        reveal_strlit("7");
        reveal_strlit("8");
        reveal_strlit("9");
    }
    let text = if d == 0 {
        "0"
    } else if d == 1 {
        "1"
    } else if d == 2 {
        "2"
    } else if d == 3 {
        "3"
    } else if d == 4 {
        "4"
    } else if d == 5 {
        "5"
    } else if d == 6 {
        "6"
    } else if d == 7 {
        "7"
    } else if d == 8 {
        "8"
    } else {
        "9"
    };
    assert(text@ =~= seq![digit_char(d as nat)]);
    text
}

/// Writes `n` as a decimal numeral.
pub fn decimal_text(n: u64) -> (text: String)
    ensures
        text@ == decimal(n as nat),
    decreases n,
{
    if n < 10 {
        String::from_str(digit_text(n))
    } else {
        let mut text = decimal_text(n / 10);
        text.append(digit_text(n % 10));
        assert(text@ =~= decimal(n as nat));
        text
    }
}

/// Joins a path to a base URL. Nothing is inserted between them and
/// nothing is escaped.
pub fn join(base_url: &str, path: &str) -> (url: String)
    ensures
        url@ == joined(base_url@, path@),
{
    let mut url = String::from_str(base_url);
    url.append(path);
    url
}

/// Writes the path of a collection inside a project.
pub fn collection_path_text(project_id: u64, collection: &str) -> (path: String)
    ensures
        path@ == collection_path(project_id, collection@),
{
    let mut path = String::from_str("/projects/");
    let id = decimal_text(project_id);
    path.append(id.as_str());
    path.append("/");
    path.append(collection);
    path
}

/// Writes the path of one item of a collection inside a project.
pub fn item_path_text(project_id: u64, collection: &str, item_id: u64) -> (path: String)
    ensures
        path@ == item_path(project_id, collection@, item_id),
{
    let mut path = collection_path_text(project_id, collection);
    let id = decimal_text(item_id);
    path.append("/");
    path.append(id.as_str());
    path
}

} // verus!
