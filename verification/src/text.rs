//! Text building blocks: the strings that make up commands, paths and
//! configuration files are assembled here, each with its exact value.
use vstd::prelude::*;

verus! {

/// The views of the items of a sequence, in order.
pub open spec fn views<T: View>(items: Seq<T>) -> Seq<T::V> {
    Seq::new(items.len(), |i: int| items[i]@)
}

/// Viewing a sequence with one more item appends that item's view.
pub proof fn lemma_views_push<T: View>(items: Seq<T>, item: T)
    ensures
        views(items.push(item)) == views(items).push(item@),
{
    assert(views(items.push(item)) =~= views(items).push(item@));
}

/// Viewing a concatenation concatenates the views.
pub proof fn lemma_views_add<T: View>(left: Seq<T>, right: Seq<T>)
    ensures
        views(left + right) == views(left) + views(right),
{
    assert(views(left + right) =~= views(left) + views(right));
}

/// The view of an optional string.
pub open spec fn view_opt(value: Option<String>) -> Option<Seq<char>> {
    match value {
        Some(s) => Some(s@),
        None => None,
    }
}

/// `a` followed by `b`.
pub fn chain(a: &str, b: &str) -> (r: String)
    ensures
        r@ == a@ + b@,
{
    let mut r = String::from_str(a);
    r.append(b);
    r
}

/// `a`, `b` and `c` in a row.
pub fn chain3(a: &str, b: &str, c: &str) -> (r: String)
    ensures
        r@ == a@ + b@ + c@,
{
    let mut r = String::from_str(a);
    r.append(b);
    r.append(c);
    r
}

/// The path of `name` below the directory `dir`.
pub open spec fn path_under(dir: Seq<char>, name: Seq<char>) -> Seq<char> {
    dir + "/"@ + name
}

/// Joins a directory and a relative name with a single separator.
pub fn join_path(dir: &str, name: &str) -> (r: String)
    ensures
        r@ == path_under(dir@, name@),
{
    chain3(dir, "/", name)
}

/// The decimal digit `d` as text.
pub open spec fn digit(d: nat) -> Seq<char> {
    if d == 0 {
        "0"@
    } else if d == 1 {
        "1"@
    } else if d == 2 {
        "2"@
    } else if d == 3 {
        "3"@
    } else if d == 4 {
        "4"@
    } else if d == 5 {
        "5"@
    } else if d == 6 {
        "6"@
    } else if d == 7 {
        "7"@
    } else if d == 8 {
        "8"@
    } else {
        "9"@
    }
}

/// The decimal numeral of `n`, without sign or leading zeros.
pub open spec fn decimal(n: nat) -> Seq<char>
    decreases n,
{
    if n < 10 {
        digit(n)
    } else {
        decimal(n / 10) + digit(n % 10)
    }
}

fn digit_text(d: u64) -> (r: &'static str)
    requires
        d < 10,
    ensures
        r@ == digit(d as nat),
{
    if d == 0 {
        "0"
    } else if d == 1 {
        "1"
    } else if d == 2 {
        "2"
    } else if d == 3 {
        "3"
    } else if d == 4 {
        "4"
    } else if d == 5 {
        "5"
    } else if d == 6 {
        "6"
    } else if d == 7 {
        "7"
    } else if d == 8 {
        "8"
    } else {
        "9"
    }
}

/// Writes `n` as a decimal numeral.
pub fn decimal_text(n: u64) -> (r: String)
    ensures
        r@ == decimal(n as nat),
    decreases n,
{
    if n < 10 {
        String::from_str(digit_text(n))
    } else {
        let mut r = decimal_text(n / 10);
        r.append(digit_text(n % 10));
        r
    }
}

/// The words of a list in a row, with `sep` between neighbours.
pub open spec fn joined(words: Seq<Seq<char>>, sep: Seq<char>) -> Seq<char>
    decreases words.len(),
{
    if words.len() == 0 {
        Seq::empty()
    } else if words.len() == 1 {
        words[0]
    } else {
        joined(words.drop_last(), sep) + sep + words.last()
    }
}

/// Joins the words of a list with a separator.
pub fn join(words: &Vec<String>, sep: &str) -> (r: String)
    ensures
        r@ == joined(views(words@), sep@),
{
    let mut r = String::new();
    let mut i: usize = 0;
    while i < words.len()
        invariant
            i <= words.len(),
            r@ == joined(views(words@).take(i as int), sep@),
        decreases words.len() - i,
    {
        proof {
            let all = views(words@);
            assert(all.take(i + 1).drop_last() =~= all.take(i as int));
            assert(all.take(i + 1).last() == words[i as int]@);
        }
        if i > 0 {
            r.append(sep);
            r.append(words[i].as_str());
        } else {
            r.append(words[i].as_str());
            assert(r@ =~= words[0]@);
        }
        i += 1;
    }
    proof {
        assert(views(words@).take(words.len() as int) =~= views(words@));
    }
    r
}

/// Whether two texts are the same.
pub fn same(a: &str, b: &str) -> (r: bool)
    ensures
        r == (a@ == b@),
{
    let x = String::from_str(a);
    let y = String::from_str(b);
    x == y
}

/// Whether `item` is one of the texts of `list`.
pub fn contains_text(list: &Vec<String>, item: &str) -> (r: bool)
    ensures
        r == views(list@).contains(item@),
{
    let wanted = String::from_str(item);
    let mut i: usize = 0;
    while i < list.len()
        invariant
            i <= list.len(),
            wanted@ == item@,
            forall|k: int| 0 <= k < i ==> views(list@)[k] != item@,
        decreases list.len() - i,
    {
        if list[i] == wanted {
            assert(views(list@)[i as int] == item@);
            return true;
        }
        i += 1;
    }
    false
}

/// `list` without the texts that equal `item`, the others in their order.
pub open spec fn without(list: Seq<Seq<char>>, item: Seq<char>) -> Seq<Seq<char>>
    decreases list.len(),
{
    if list.len() == 0 {
        Seq::empty()
    } else if list.last() == item {
        without(list.drop_last(), item)
    } else {
        without(list.drop_last(), item).push(list.last())
    }
}

/// Nothing that equals `item` is left in `without(list, item)`, and what is
/// left was in `list`.
pub proof fn lemma_without(list: Seq<Seq<char>>, item: Seq<char>)
    ensures
        !without(list, item).contains(item),
        forall|other: Seq<char>| other != item ==> (without(list, item).contains(other) <==> list.contains(other)),
        without(list, item).len() <= list.len(),
    decreases list.len(),
{
    if list.len() == 0 {
    } else {
        let rest = list.drop_last();
        lemma_without(rest, item);
        let out = without(list, item);
        assert forall|other: Seq<char>| other != item implies (out.contains(other) <==> list.contains(other)) by {
            if list.contains(other) {
                let k = choose|k: int| 0 <= k < list.len() && list[k] == other;
                if k < list.len() - 1 {
                    assert(rest[k] == other);
                    assert(rest.contains(other));
                    assert(without(rest, item).contains(other));
                    let m = choose|m: int| 0 <= m < without(rest, item).len() && without(rest, item)[m] == other;
                    assert(out[m] == other);
                } else {
                    assert(out.last() == other);
                }
            }
            if out.contains(other) {
                let m = choose|m: int| 0 <= m < out.len() && out[m] == other;
                if m < without(rest, item).len() {
                    assert(without(rest, item)[m] == other);
                    assert(rest.contains(other));
                    let k = choose|k: int| 0 <= k < rest.len() && rest[k] == other;
                    assert(list[k] == other);
                } else {
                    assert(list[list.len() - 1] == other);
                }
            }
        }
        if out.contains(item) {
            let m = choose|m: int| 0 <= m < out.len() && out[m] == item;
            if m < without(rest, item).len() {
                assert(without(rest, item)[m] == item);
            }
        }
    }
}

/// Removes every text that equals `item` from `list`.
pub fn remove_text(list: &Vec<String>, item: &str) -> (r: Vec<String>)
    ensures
        views(r@) == without(views(list@), item@),
{
    let wanted = String::from_str(item);
    let mut out: Vec<String> = Vec::new();
    let mut i: usize = 0;
    proof {
        assert(views(list@).take(0) =~= Seq::<Seq<char>>::empty());
        assert(views(out@) =~= Seq::<Seq<char>>::empty());
    }
    while i < list.len()
        invariant
            i <= list.len(),
            wanted@ == item@,
            views(out@) == without(views(list@).take(i as int), item@),
        decreases list.len() - i,
    {
        proof {
            let all = views(list@);
            assert(all.take(i + 1).drop_last() =~= all.take(i as int));
            assert(all.take(i + 1).last() == list[i as int]@);
        }
        if !(list[i] == wanted) {
            let ghost before = out@;
            let kept = list[i].clone();
            out.push(kept);
            proof {
                lemma_views_push(before, kept);
            }
        }
        i += 1;
    }
    proof {
        assert(views(list@).take(list.len() as int) =~= views(list@));
    }
    out
}

/// Whether `hay` begins with `prefix`.
pub fn starts_with(hay: &str, prefix: &str) -> (r: bool)
    ensures
        r == prefix@.is_prefix_of(hay@),
{
    let n = prefix.unicode_len();
    let m = hay.unicode_len();
    if n > m {
        return false;
    }
    let mut i: usize = 0;
    while i < n
        invariant
            i <= n,
            n == prefix@.len(),
            m == hay@.len(),
            n <= m,
            forall|k: int| 0 <= k < i ==> prefix@[k] == hay@[k],
        decreases n - i,
    {
        if prefix.get_char(i) != hay.get_char(i) {
            assert(hay@.subrange(0, n as int)[i as int] == hay@[i as int]);
            return false;
        }
        i += 1;
    }
    assert(prefix@ =~= hay@.subrange(0, n as int));
    true
}

/// Whether `needle` occurs in `hay` as a run of neighbouring characters.
pub open spec fn has_substring(hay: Seq<char>, needle: Seq<char>) -> bool {
    exists|i: int| 0 <= i <= hay.len() - needle.len() && #[trigger] hay.subrange(i, i + needle.len()) == needle
}

/// Whether `needle` occurs in `hay`.
pub fn contains(hay: &str, needle: &str) -> (r: bool)
    ensures
        r == has_substring(hay@, needle@),
{
    let n = hay.unicode_len();
    let m = needle.unicode_len();
    if m > n {
        return false;
    }
    let mut i: usize = 0;
    while i <= n - m
        invariant
            n == hay@.len(),
            m == needle@.len(),
            m <= n,
            i <= n - m + 1,
            forall|k: int| 0 <= k < i ==> #[trigger] hay@.subrange(k, k + m) != needle@,
        decreases n - m + 1 - i,
    {
        let rest = hay.substring_char(i, n);
        proof {
            assert(rest@.subrange(0, m as int) =~= hay@.subrange(i as int, i + m));
        }
        if starts_with(rest, needle) {
            return true;
        }
        i += 1;
    }
    false
}

/// Whether `hay` ends with `suffix`.
pub open spec fn has_suffix(hay: Seq<char>, suffix: Seq<char>) -> bool {
    suffix.len() <= hay.len() && hay.subrange(hay.len() - suffix.len(), hay.len() as int) == suffix
}

/// Whether `hay` ends with `suffix`.
pub fn ends_with(hay: &str, suffix: &str) -> (r: bool)
    ensures
        r == has_suffix(hay@, suffix@),
{
    let n = hay.unicode_len();
    let m = suffix.unicode_len();
    if m > n {
        return false;
    }
    same(hay.substring_char(n - m, n), suffix)
}

/// Whether `path` lies below the directory `dir`.
pub open spec fn under(path: Seq<char>, dir: Seq<char>) -> bool {
    (dir + "/"@).is_prefix_of(path)
}

/// Whether `path` lies below the directory `dir`.
pub fn is_under(path: &str, dir: &str) -> (r: bool)
    ensures
        r == under(path@, dir@),
{
    let prefix = chain(dir, "/");
    starts_with(path, prefix.as_str())
}

/// `text` without the characters that equal `unwanted`.
pub open spec fn without_char(text: Seq<char>, unwanted: char) -> Seq<char>
    decreases text.len(),
{
    if text.len() == 0 {
        Seq::empty()
    } else if text.last() == unwanted {
        without_char(text.drop_last(), unwanted)
    } else {
        without_char(text.drop_last(), unwanted).push(text.last())
    }
}

/// Removes every occurrence of a character from a text.
pub fn remove_char(text: &str, unwanted: char) -> (r: String)
    ensures
        r@ == without_char(text@, unwanted),
{
    let n = text.unicode_len();
    let mut r = String::new();
    let mut i: usize = 0;
    proof {
        assert(text@.take(0) =~= Seq::<char>::empty());
    }
    while i < n
        invariant
            i <= n,
            n == text@.len(),
            r@ == without_char(text@.take(i as int), unwanted),
        decreases n - i,
    {
        proof {
            assert(text@.take(i + 1).drop_last() =~= text@.take(i as int));
            assert(text@.take(i + 1).last() == text@[i as int]);
        }
        if text.get_char(i) != unwanted {
            let piece = text.substring_char(i, i + 1);
            proof {
                assert(piece@ =~= seq![text@[i as int]]);
            }
            let ghost before = r@;
            r.append(piece);
            proof {
                assert(before + piece@ =~= before.push(text@[i as int]));
            }
        }
        i += 1;
    }
    proof {
        assert(text@.take(n as int) =~= text@);
    }
    r
}

/// The pieces of a template with the values between them: each piece is
/// followed by the value of its position, as long as there is one.
pub open spec fn interleaved(pieces: Seq<Seq<char>>, values: Seq<Seq<char>>) -> Seq<char>
    decreases pieces.len(),
{
    if pieces.len() == 0 {
        Seq::empty()
    } else {
        let last = pieces.len() - 1;
        interleaved(pieces.drop_last(), values) + pieces.last() + (if last < values.len() {
            values[last]
        } else {
            Seq::empty()
        })
    }
}

/// Fills a template: writes the pieces in order, each followed by the
/// value of its position.
pub fn interleave(pieces: &[&str], values: &Vec<String>) -> (r: String)
    ensures
        r@ == interleaved(views(pieces@), views(values@)),
{
    let mut r = String::new();
    let mut i: usize = 0;
    while i < pieces.len()
        invariant
            i <= pieces.len(),
            r@ == interleaved(views(pieces@).take(i as int), views(values@)),
        decreases pieces.len() - i,
    {
        let ghost before = r@;
        proof {
            let all = views(pieces@);
            assert(all.take(i + 1).drop_last() =~= all.take(i as int));
            assert(all.take(i + 1).last() == pieces[i as int]@);
        }
        r.append(pieces[i]);
        if i < values.len() {
            r.append(values[i].as_str());
        } else {
            assert(before + pieces[i as int]@ + Seq::<char>::empty() =~= before + pieces[i as int]@);
        }
        i += 1;
    }
    proof {
        assert(views(pieces@).take(pieces.len() as int) =~= views(pieces@));
    }
    r
}

} // verus!
