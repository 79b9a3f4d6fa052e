//! Keys of JVM arguments and the merging of argument lists without duplicate flags.
use vstd::prelude::*;
use crate::text::{chars_of, string_from_chars};

verus! {

/// `i` is the position of the first `=` in `arg`.
pub open spec fn is_first_equals(arg: Seq<char>, i: int) -> bool {
    &&& 0 <= i < arg.len()
    &&& arg[i] == '='
    &&& forall|j: int| 0 <= j < i ==> arg[j] != '='
}

/// `arg` starts with `-XX:+` or `-XX:-`, a boolean `-XX` option.
pub open spec fn is_xx_toggle(arg: Seq<char>) -> bool {
    &&& arg.len() >= 5
    &&& arg[0] == '-' && arg[1] == 'X' && arg[2] == 'X' && arg[3] == ':'
    &&& (arg[4] == '+' || arg[4] == '-')
}

/// `arg` starts with `-Xmx`, `-Xms` or `-Xmn`, a heap size option.
pub open spec fn is_heap_size(arg: Seq<char>) -> bool {
    &&& arg.len() >= 4
    &&& arg[0] == '-' && arg[1] == 'X' && arg[2] == 'm'
    &&& (arg[3] == 'x' || arg[3] == 's' || arg[3] == 'n')
}

/// The flag that an argument sets: two arguments with the same key conflict.
/// - `key=value` has the key `key` (up to the first `=`);
/// - `-XX:+Name` and `-XX:-Name` both have the key `-XX:Name`;
/// - `-Xmx..`, `-Xms..`, `-Xmn..` have the keys `-Xmx`, `-Xms`, `-Xmn`;
/// - any other argument is its own key.
pub open spec fn arg_key(arg: Seq<char>) -> Seq<char> {
    if exists|i: int| is_first_equals(arg, i) {
        arg.take(choose|i: int| is_first_equals(arg, i))
    } else if is_xx_toggle(arg) {
        seq!['-', 'X', 'X', ':'] + arg.skip(5)
    } else if is_heap_size(arg) {
        arg.take(4)
    } else {
        arg
    }
}

/// The element at `i` is the first of `args` with its key.
pub open spec fn is_first_of_key(args: Seq<Seq<char>>, i: int) -> bool {
    forall|j: int| 0 <= j < i ==> arg_key(#[trigger] args[j]) != arg_key(args[i])
}

/// The arguments of `args` that are the first with their key, in their order in `args`.
pub open spec fn dedup_by_key(args: Seq<Seq<char>>) -> Seq<Seq<char>>
    decreases args.len(),
{
    if args.len() == 0 {
        Seq::empty()
    } else {
        let kept = dedup_by_key(args.drop_last());
        if is_first_of_key(args, args.len() - 1) {
            kept.push(args.last())
        } else {
            kept
        }
    }
}

/// The character sequences of a list of strings.
pub open spec fn views(args: Seq<String>) -> Seq<Seq<char>> {
    args.map_values(|s: String| s@)
}

/// `key` is the key of some argument in `args`.
pub open spec fn has_key(args: Seq<Seq<char>>, key: Seq<char>) -> bool {
    exists|i: int| 0 <= i < args.len() && arg_key(#[trigger] args[i]) == key
}

/// No two arguments of `args` share a key.
pub open spec fn keys_distinct(args: Seq<Seq<char>>) -> bool {
    forall|i: int, j: int|
        0 <= i < j < args.len() ==> arg_key(#[trigger] args[i]) != arg_key(#[trigger] args[j])
}

proof fn lemma_first_equals_unique(arg: Seq<char>, i: int, k: int)
    requires
        is_first_equals(arg, i),
        is_first_equals(arg, k),
    ensures
        i == k,
{
    if i < k {
        assert(arg[i] != '=');
    } else if k < i {
        assert(arg[k] != '=');
    }
}

/// Extracts the key of a JVM argument (see `arg_key`).
pub fn extract_arg_key(arg: &str) -> (key: String)
    ensures
        key@ == arg_key(arg@),
{
    let chars = chars_of(arg);
    let n: usize = chars.len();
    let mut i: usize = 0;
    while i < n
        invariant
            n == chars.len(),
            chars@ == arg@,
            i <= n,
            forall|j: int| 0 <= j < i ==> chars@[j] != '=',
        decreases n - i,
    {
        if chars[i] == '=' {
            proof {
                assert(is_first_equals(arg@, i as int));
                let k = choose|k: int| is_first_equals(arg@, k);
                lemma_first_equals_unique(arg@, i as int, k);
            }
            return string_from_chars(&chars, 0, i);
        }
        i = i + 1;
    }
    assert(!exists|k: int| is_first_equals(arg@, k)) by {
        if exists|k: int| is_first_equals(arg@, k) {
            let k = choose|k: int| is_first_equals(arg@, k);
            assert(chars@[k] != '=');
        }
    }
    if n >= 5 && chars[0] == '-' && chars[1] == 'X' && chars[2] == 'X' && chars[3] == ':' && (
    chars[4] == '+' || chars[4] == '-') {
        let mut key = string_from_chars(&chars, 0, 4);
        let rest = string_from_chars(&chars, 5, n);
        key.append(rest.as_str());
        assert(chars@.subrange(0, 4) =~= seq!['-', 'X', 'X', ':']);
        assert(chars@.subrange(5, n as int) =~= arg@.skip(5));
        key
    } else if n >= 4 && chars[0] == '-' && chars[1] == 'X' && chars[2] == 'm' && (chars[3] == 'x'
        || chars[3] == 's' || chars[3] == 'n') {
        string_from_chars(&chars, 0, 4)
    } else {
        assert(chars@.subrange(0, n as int) =~= arg@);
        string_from_chars(&chars, 0, n)
    }
}


/// The key of an argument that holds `=` is exactly the text before its first `=`,
/// wherever in the argument that `=` stands.
pub proof fn law_key_is_text_before_first_equals(arg: Seq<char>, i: int)
    requires
        0 <= i < arg.len(),
        arg[i] == '=',
        forall|j: int| 0 <= j < i ==> arg[j] != '=',
    ensures
        arg_key(arg) == arg.take(i),
{
    assert(is_first_equals(arg, i));
    let k = choose|k: int| is_first_equals(arg, k);
    lemma_first_equals_unique(arg, i, k);
}

/// An argument without `=` that is neither a `-XX:+`/`-XX:-` option nor a `-Xmx`/`-Xms`/`-Xmn`
/// heap size is its own key.
pub proof fn law_plain_argument_is_its_own_key(arg: Seq<char>)
    requires
        forall|j: int| 0 <= j < arg.len() ==> arg[j] != '=',
        !(arg.len() >= 5 && arg[0] == '-' && arg[1] == 'X' && arg[2] == 'X' && arg[3] == ':' && (
        arg[4] == '+' || arg[4] == '-')),
        !(arg.len() >= 4 && arg[0] == '-' && arg[1] == 'X' && arg[2] == 'm' && (arg[3] == 'x'
            || arg[3] == 's' || arg[3] == 'n')),
    ensures
        arg_key(arg) == arg,
{
}

/// Two settings `name=v1` and `name=v2` of one option conflict: merged, only the first is
/// kept, whatever the values and however long the name.
pub proof fn law_same_option_set_twice_kept_once(name: Seq<char>, v1: Seq<char>, v2: Seq<char>)
    requires
        forall|j: int| 0 <= j < name.len() ==> name[j] != '=',
    ensures
        dedup_by_key(seq![name + seq!['='] + v1] + seq![name + seq!['='] + v2]) == seq![name
            + seq!['='] + v1],
{
    let a = name + seq!['='] + v1;
    let b = name + seq!['='] + v2;
    let args = seq![a] + seq![b];
    assert forall|j: int| 0 <= j < name.len() implies a[j] != '=' by {
        assert(a[j] == name[j]);
    }
    assert forall|j: int| 0 <= j < name.len() implies b[j] != '=' by {
        assert(b[j] == name[j]);
    }
    law_key_is_text_before_first_equals(a, name.len() as int);
    law_key_is_text_before_first_equals(b, name.len() as int);
    assert(a.take(name.len() as int) =~= name);
    assert(b.take(name.len() as int) =~= name);
    assert(args.drop_last() =~= seq![a]);
    assert(seq![a].drop_last() =~= Seq::<Seq<char>>::empty());
    assert(args[0] == a && args[1] == b);
    assert(!is_first_of_key(args, 1));
    assert(dedup_by_key(Seq::<Seq<char>>::empty()) =~= Seq::<Seq<char>>::empty());
    assert(is_first_of_key(seq![a], 0));
    assert(seq![a].last() == a);
    assert(dedup_by_key(seq![a]) =~= Seq::<Seq<char>>::empty().push(a));
    assert(Seq::<Seq<char>>::empty().push(a) =~= seq![a]);
}

/// `-XX:+Name` and `-XX:-Name` set the same flag, `-XX:Name`, when `Name` holds no `=`.
pub proof fn law_xx_toggles_share_key(name: Seq<char>)
    requires
        forall|i: int| 0 <= i < name.len() ==> name[i] != '=',
    ensures
        arg_key(seq!['-', 'X', 'X', ':', '+'] + name) == seq!['-', 'X', 'X', ':'] + name,
        arg_key(seq!['-', 'X', 'X', ':', '-'] + name) == seq!['-', 'X', 'X', ':'] + name,
{
    let on = seq!['-', 'X', 'X', ':', '+'] + name;
    let off = seq!['-', 'X', 'X', ':', '-'] + name;
    assert forall|i: int| 0 <= i < on.len() implies on[i] != '=' by {
        if i >= 5 {
            assert(on[i] == name[i - 5]);
        }
    }
    assert forall|i: int| 0 <= i < off.len() implies off[i] != '=' by {
        if i >= 5 {
            assert(off[i] == name[i - 5]);
        }
    }
    assert(on.skip(5) =~= name);
    assert(off.skip(5) =~= name);
}

/// `-Xmx..`, `-Xms..` and `-Xmn..` arguments set the flag of their first four characters,
/// whatever size follows, when the size holds no `=`.
pub proof fn law_heap_sizes_share_key(option: char, size: Seq<char>)
    requires
        option == 'x' || option == 's' || option == 'n',
        forall|i: int| 0 <= i < size.len() ==> size[i] != '=',
    ensures
        arg_key(seq!['-', 'X', 'm', option] + size) == seq!['-', 'X', 'm', option],
{
    let arg = seq!['-', 'X', 'm', option] + size;
    assert forall|i: int| 0 <= i < arg.len() implies arg[i] != '=' by {
        if i >= 4 {
            assert(arg[i] == size[i - 4]);
        }
    }
    assert(arg.take(4) =~= seq!['-', 'X', 'm', option]);
}

/// Keys survive deduplication and no key is kept twice.
proof fn lemma_dedup_keys(args: Seq<Seq<char>>)
    ensures
        forall|key: Seq<char>| has_key(dedup_by_key(args), key) == has_key(args, key),
        keys_distinct(dedup_by_key(args)),
    decreases args.len(),
{
    if args.len() > 0 {
        let prefix = args.drop_last();
        let last = args.last();
        let kept = dedup_by_key(prefix);
        lemma_dedup_keys(prefix);
        assert forall|key: Seq<char>| has_key(args, key) == (has_key(prefix, key) || arg_key(last)
            == key) by {
            if has_key(args, key) {
                let i = choose|i: int| 0 <= i < args.len() && arg_key(#[trigger] args[i]) == key;
                if i < args.len() - 1 {
                    assert(prefix[i] == args[i]);
                }
            }
            if has_key(prefix, key) {
                let i = choose|i: int| 0 <= i < prefix.len() && arg_key(#[trigger] prefix[i]) == key;
                assert(args[i] == prefix[i]);
            }
            if arg_key(last) == key {
                assert(args[args.len() - 1] == last);
            }
        }
        if is_first_of_key(args, args.len() - 1) {
            let out = kept.push(last);
            assert forall|key: Seq<char>| has_key(out, key) == (has_key(kept, key) || arg_key(last)
                == key) by {
                if has_key(out, key) {
                    let i = choose|i: int| 0 <= i < out.len() && arg_key(#[trigger] out[i]) == key;
                    if i < kept.len() {
                        assert(kept[i] == out[i]);
                    }
                }
                if has_key(kept, key) {
                    let i = choose|i: int| 0 <= i < kept.len() && arg_key(#[trigger] kept[i]) == key;
                    assert(out[i] == kept[i]);
                }
                if arg_key(last) == key {
                    assert(out[out.len() - 1] == last);
                }
            }
            assert forall|i: int, j: int| 0 <= i < j < out.len() implies arg_key(#[trigger] out[i])
                != arg_key(#[trigger] out[j]) by {
                if j < kept.len() {
                    assert(out[i] == kept[i] && out[j] == kept[j]);
                } else {
                    assert(out[i] == kept[i]);
                    assert(has_key(kept, arg_key(kept[i])));
                    assert(has_key(prefix, arg_key(kept[i])));
                    let k = choose|k: int|
                        0 <= k < prefix.len() && arg_key(#[trigger] prefix[k]) == arg_key(kept[i]);
                    assert(args[k] == prefix[k]);
                }
            }
        } else {
            let j = choose|j: int| 0 <= j < args.len() - 1 && arg_key(#[trigger] args[j]) == arg_key(
                args[args.len() - 1],
            );
            assert(prefix[j] == args[j]);
            assert(has_key(prefix, arg_key(last)));
        }
    }
}

/// Deduplication of `prefix` extended by one argument.
proof fn lemma_dedup_push(prefix: Seq<Seq<char>>, arg: Seq<char>)
    ensures
        dedup_by_key(prefix.push(arg)) == if has_key(prefix, arg_key(arg)) {
            dedup_by_key(prefix)
        } else {
            dedup_by_key(prefix).push(arg)
        },
{
    let args = prefix.push(arg);
    assert(args.drop_last() =~= prefix);
    assert(args.last() == arg);
    if has_key(prefix, arg_key(arg)) {
        let j = choose|j: int| 0 <= j < prefix.len() && arg_key(#[trigger] prefix[j]) == arg_key(arg);
        assert(args[j] == prefix[j]);
    } else {
        assert forall|j: int| 0 <= j < args.len() - 1 implies arg_key(#[trigger] args[j]) != arg_key(
            args[args.len() - 1]) by {
            assert(args[j] == prefix[j]);
        }
    }
}

/// The state of a deduplication: `result` is the deduplication of `prefix`, and
/// `seen_keys[k]` is the key of `result[k]`.
spec fn dedup_state(prefix: Seq<Seq<char>>, result: Seq<String>, seen_keys: Seq<String>) -> bool {
    &&& views(result) == dedup_by_key(prefix)
    &&& seen_keys.len() == result.len()
    &&& forall|k: int| 0 <= k < seen_keys.len() ==> #[trigger] seen_keys[k]@ == arg_key(result[k]@)
}

fn push_if_new_key(
    arg: &String,
    result: &mut Vec<String>,
    seen_keys: &mut Vec<String>,
    Ghost(prefix): Ghost<Seq<Seq<char>>>,
)
    requires
        dedup_state(prefix, old(result)@, old(seen_keys)@),
    ensures
        dedup_state(prefix.push(arg@), final(result)@, final(seen_keys)@),
{
    let key = extract_arg_key(arg.as_str());
    let mut found = false;
    let mut k: usize = 0;
    let n: usize = seen_keys.len();
    while k < n
        invariant
            n == seen_keys.len(),
            k <= n,
            dedup_state(prefix, result@, seen_keys@),
            key@ == arg_key(arg@),
            found <==> exists|m: int| 0 <= m < k && seen_keys@[m]@ == key@,
        decreases n - k,
    {
        if seen_keys[k] == key {
            found = true;
        }
        k = k + 1;
    }
    proof {
        lemma_dedup_keys(prefix);
        lemma_dedup_push(prefix, arg@);
        let kept = dedup_by_key(prefix);
        if found {
            let m = choose|m: int| 0 <= m < n && seen_keys@[m]@ == key@;
            assert(kept[m] == result@[m]@);
            assert(has_key(kept, arg_key(arg@)));
        } else if has_key(kept, arg_key(arg@)) {
            let m = choose|m: int| 0 <= m < kept.len() && arg_key(#[trigger] kept[m]) == arg_key(arg@);
            assert(kept[m] == result@[m]@);
            assert(seen_keys@[m]@ == key@);
        }
    }
    if !found {
        result.push(arg.clone());
        seen_keys.push(key);
        proof {
            assert(views(result@) =~= views(old(result)@).push(arg@));
        }
    }
}

/// Merges `base_args` followed by `extra_args`, keeping of each key only its first argument,
/// in the original order. An argument of `base_args` wins over a conflicting one of
/// `extra_args`.
pub fn deduplicate_jvm_args(base_args: &[String], extra_args: &[String]) -> (result: Vec<String>)
    ensures
        views(result@) == dedup_by_key(views(base_args@) + views(extra_args@)),
{
    let mut result: Vec<String> = Vec::new();
    let mut seen_keys: Vec<String> = Vec::new();
    let ghost base = views(base_args@);
    let ghost extra = views(extra_args@);
    assert(views(result@) =~= dedup_by_key(base.take(0)));
    for i in 0..base_args.len()
        invariant
            base == views(base_args@),
            dedup_state(base.take(i as int), result@, seen_keys@),
    {
        assert(base.take(i as int).push(base_args@[i as int]@) =~= base.take(i + 1));
        push_if_new_key(&base_args[i], &mut result, &mut seen_keys, Ghost(base.take(i as int)));
    }
    assert(base.take(base_args.len() as int) =~= base);
    assert(base + extra.take(0) =~= base);
    for i in 0..extra_args.len()
        invariant
            base == views(base_args@),
            extra == views(extra_args@),
            dedup_state(base + extra.take(i as int), result@, seen_keys@),
    {
        assert((base + extra.take(i as int)).push(extra_args@[i as int]@) =~= base + extra.take(
            i + 1,
        ));
        push_if_new_key(
            &extra_args[i],
            &mut result,
            &mut seen_keys,
            Ghost(base + extra.take(i as int)),
        );
    }
    assert(extra.take(extra_args.len() as int) =~= extra);
    result
}

/// Deduplication leaves alone a list whose keys are already distinct.
proof fn lemma_dedup_of_distinct(args: Seq<Seq<char>>)
    requires
        keys_distinct(args),
    ensures
        dedup_by_key(args) == args,
    decreases args.len(),
{
    if args.len() > 0 {
        let prefix = args.drop_last();
        assert forall|i: int, j: int| 0 <= i < j < prefix.len() implies arg_key(#[trigger] prefix[i])
            != arg_key(#[trigger] prefix[j]) by {
            assert(prefix[i] == args[i] && prefix[j] == args[j]);
        }
        lemma_dedup_of_distinct(prefix);
        assert forall|j: int| 0 <= j < args.len() - 1 implies arg_key(#[trigger] args[j]) != arg_key(
            args[args.len() - 1]) by {}
        assert(prefix.push(args.last()) =~= args);
    }
}

/// Deduplicating a list extended at its end keeps the deduplication of the list as a prefix.
proof fn lemma_dedup_prefix(a: Seq<Seq<char>>, b: Seq<Seq<char>>)
    ensures
        dedup_by_key(a).len() <= dedup_by_key(a + b).len(),
        dedup_by_key(a + b).take(dedup_by_key(a).len() as int) == dedup_by_key(a),
    decreases b.len(),
{
    if b.len() == 0 {
        assert(a + b =~= a);
        assert(dedup_by_key(a).take(dedup_by_key(a).len() as int) =~= dedup_by_key(a));
    } else {
        let b0 = b.drop_last();
        lemma_dedup_prefix(a, b0);
        assert((a + b0).push(b.last()) =~= a + b);
        lemma_dedup_push(a + b0, b.last());
        let d = dedup_by_key(a + b0);
        let n = dedup_by_key(a).len() as int;
        assert(d.push(b.last()).take(n) =~= d.take(n));
    }
}

/// No two arguments of a deduplicated list share a key.
pub proof fn law_dedup_keys_distinct(base: Seq<Seq<char>>, extra: Seq<Seq<char>>)
    ensures
        forall|i: int, j: int|
            0 <= i < j < dedup_by_key(base + extra).len() ==> arg_key(
                #[trigger] dedup_by_key(base + extra)[i],
            ) != arg_key(#[trigger] dedup_by_key(base + extra)[j]),
{
    lemma_dedup_keys(base + extra);
}

/// Every key of the base and extra arguments is still set by some kept argument, and
/// every kept argument's key comes from them.
pub proof fn law_dedup_keeps_every_key(base: Seq<Seq<char>>, extra: Seq<Seq<char>>, key: Seq<char>)
    ensures
        (exists|i: int|
            0 <= i < dedup_by_key(base + extra).len() && arg_key(
                #[trigger] dedup_by_key(base + extra)[i],
            ) == key) == (exists|j: int|
            0 <= j < (base + extra).len() && arg_key(#[trigger] (base + extra)[j]) == key),
{
    let args = base + extra;
    let kept = dedup_by_key(args);
    lemma_dedup_keys(args);
    if exists|i: int| 0 <= i < kept.len() && arg_key(#[trigger] kept[i]) == key {
        assert(has_key(kept, key));
        assert(has_key(args, key));
    }
    if exists|j: int| 0 <= j < args.len() && arg_key(#[trigger] args[j]) == key {
        assert(has_key(args, key));
        assert(has_key(kept, key));
    }
}

/// Every kept argument is one of the given arguments, the first with its key.
pub proof fn law_dedup_keeps_first_of_each_key(args: Seq<Seq<char>>, i: int)
    requires
        0 <= i < dedup_by_key(args).len(),
    ensures
        exists|j: int|
            0 <= j < args.len() && #[trigger] args[j] == dedup_by_key(args)[i] && is_first_of_key(
                args,
                j,
            ),
    decreases args.len(),
{
    let prefix = args.drop_last();
    let kept = dedup_by_key(prefix);
    if i < kept.len() {
        law_dedup_keeps_first_of_each_key(prefix, i);
        let j = choose|j: int|
            0 <= j < prefix.len() && #[trigger] prefix[j] == kept[i] && is_first_of_key(prefix, j);
        assert(args[j] == prefix[j]);
        assert forall|m: int| 0 <= m < j implies arg_key(#[trigger] args[m]) != arg_key(args[j]) by {
            assert(args[m] == prefix[m]);
        }
    } else {
        assert(args[args.len() - 1] == dedup_by_key(args)[i]);
    }
}

/// Kept arguments stay in the order of the given arguments: of two kept arguments, the
/// earlier one is taken from an earlier position.
pub proof fn law_dedup_preserves_order(args: Seq<Seq<char>>, i: int, j: int)
    requires
        0 <= i < j < dedup_by_key(args).len(),
    ensures
        exists|a: int, b: int|
            0 <= a < b < args.len() && #[trigger] args[a] == dedup_by_key(args)[i] && #[trigger] args[b]
                == dedup_by_key(args)[j],
    decreases args.len(),
{
    let prefix = args.drop_last();
    let kept = dedup_by_key(prefix);
    if j < kept.len() {
        law_dedup_preserves_order(prefix, i, j);
        let (a, b) = choose|a: int, b: int|
            0 <= a < b < prefix.len() && #[trigger] prefix[a] == kept[i] && #[trigger] prefix[b]
                == kept[j];
        assert(args[a] == prefix[a] && args[b] == prefix[b]);
    } else {
        law_dedup_keeps_first_of_each_key(prefix, i);
        let a = choose|a: int|
            0 <= a < prefix.len() && #[trigger] prefix[a] == kept[i] && is_first_of_key(prefix, a);
        assert(args[a] == prefix[a]);
        assert(args[args.len() - 1] == dedup_by_key(args)[j]);
    }
}

/// Deduplicating twice gives the same list as deduplicating once.
pub proof fn law_dedup_idempotent(args: Seq<Seq<char>>)
    ensures
        dedup_by_key(dedup_by_key(args)) == dedup_by_key(args),
{
    lemma_dedup_keys(args);
    lemma_dedup_of_distinct(dedup_by_key(args));
}

/// When the base arguments set distinct flags, they all come through, unchanged and in
/// order, ahead of whatever the extra arguments add.
pub proof fn law_dedup_keeps_distinct_base(base: Seq<Seq<char>>, extra: Seq<Seq<char>>)
    requires
        keys_distinct(base),
    ensures
        base.len() <= dedup_by_key(base + extra).len(),
        dedup_by_key(base + extra).take(base.len() as int) == base,
{
    lemma_dedup_of_distinct(base);
    lemma_dedup_prefix(base, extra);
}

} // verus!
