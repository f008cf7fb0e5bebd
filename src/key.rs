//! Storage keys: the scope and the blob identifier joined into one hierarchical key.

use vstd::prelude::*;

verus! {

/// The storage key for a blob: `usecase/scope/identifier`.
pub open spec fn storage_key(usecase: Seq<char>, scope: Seq<char>, identifier: Seq<char>) -> Seq<char> {
    usecase + seq!['/'] + scope + seq!['/'] + identifier
}

/// The part holds no separator character.
pub open spec fn has_no_separator(part: Seq<char>) -> bool {
    forall|i: int| 0 <= i < part.len() ==> #[trigger] part[i] != '/'
}

/// Joins `usecase`, `scope` and `identifier` with `/`, in that order, escaping nothing.
pub fn compose_key(usecase: &str, scope: &str, identifier: &str) -> (r: String)
    ensures
        r@ == storage_key(usecase@, scope@, identifier@),
{
    proof {
        reveal_strlit("/");
    }
    let mut key = String::from_str(usecase);
    key.append("/");
    key.append(scope);
    key.append("/");
    key.append(identifier);
    key
}

/// What every storage key under a scope begins with: `usecase/scope/`.
pub open spec fn scope_prefix(usecase: Seq<char>, scope: Seq<char>) -> Seq<char> {
    usecase + seq!['/'] + scope + seq!['/']
}

/// `text` begins with `prefix`.
pub open spec fn starts_with(text: Seq<char>, prefix: Seq<char>) -> bool {
    prefix.len() <= text.len() && text.subrange(0, prefix.len() as int) == prefix
}

/// The storage key that a Get of `key` reads: a key already under the scope
/// (as Put returns it) is read as it stands; any other is taken as an
/// identifier within the scope.
pub open spec fn read_key(usecase: Seq<char>, scope: Seq<char>, key: Seq<char>) -> Seq<char> {
    if starts_with(key, scope_prefix(usecase, scope)) {
        key
    } else {
        storage_key(usecase, scope, key)
    }
}

/// Whether `text` begins with `prefix`, compared character by character.
pub fn has_prefix(text: &str, prefix: &str) -> (r: bool)
    ensures
        r == starts_with(text@, prefix@),
{
    let n = prefix.unicode_len();
    let m = text.unicode_len();
    if n > m {
        return false;
    }
    let mut i: usize = 0;
    while i < n
        invariant
            n == prefix@.len(),
            m == text@.len(),
            n <= m,
            i <= n,
            forall|j: int| 0 <= j < i ==> text@[j] == prefix@[j],
        decreases n - i,
    {
        if text.get_char(i) != prefix.get_char(i) {
            assert(text@.subrange(0, n as int)[i as int] != prefix@[i as int]);
            return false;
        }
        i = i + 1;
    }
    assert(text@.subrange(0, n as int) =~= prefix@);
    true
}

/// The storage key that a Get of `key` under the scope reads.
pub fn compose_read_key(usecase: &str, scope: &str, key: &str) -> (r: String)
    ensures
        r@ == read_key(usecase@, scope@, key@),
{
    proof {
        reveal_strlit("");
    }
    let prefix = compose_key(usecase, scope, "");
    assert(prefix@ =~= scope_prefix(usecase@, scope@));
    if has_prefix(key, prefix.as_str()) {
        String::from_str(key)
    } else {
        compose_key(usecase, scope, key)
    }
}

/// A storage key composed under a scope is read back as it stands.
pub proof fn lemma_storage_key_reads_as_is(usecase: Seq<char>, scope: Seq<char>, identifier: Seq<char>)
    ensures
        read_key(usecase, scope, storage_key(usecase, scope, identifier)) == storage_key(usecase, scope, identifier),
{
    let prefix = scope_prefix(usecase, scope);
    let key = storage_key(usecase, scope, identifier);
    assert(key =~= prefix + identifier);
    assert(key.subrange(0, prefix.len() as int) =~= prefix);
}

/// An identifier without a separator is read as an identifier within the scope.
pub proof fn lemma_plain_identifier_is_composed(usecase: Seq<char>, scope: Seq<char>, identifier: Seq<char>)
    requires
        has_no_separator(identifier),
    ensures
        read_key(usecase, scope, identifier) == storage_key(usecase, scope, identifier),
{
    let prefix = scope_prefix(usecase, scope);
    if starts_with(identifier, prefix) {
        let at = usecase.len() as int;
        assert(prefix[at] == '/');
        assert(identifier.subrange(0, prefix.len() as int)[at] == identifier[at]);
    }
}

/// A key that starts with a separator-free head followed by a separator
/// determines both the head and the rest.
proof fn lemma_split_at_first_separator(
    head1: Seq<char>,
    rest1: Seq<char>,
    head2: Seq<char>,
    rest2: Seq<char>,
)
    requires
        has_no_separator(head1),
        has_no_separator(head2),
        head1 + seq!['/'] + rest1 == head2 + seq!['/'] + rest2,
    ensures
        head1 == head2,
        rest1 == rest2,
{
    let k = head1 + seq!['/'] + rest1;
    let k2 = head2 + seq!['/'] + rest2;
    if head1.len() < head2.len() {
        assert(k[head1.len() as int] == '/');
        assert(k2[head1.len() as int] == head2[head1.len() as int]);
    } else if head2.len() < head1.len() {
        assert(k2[head2.len() as int] == '/');
        assert(k[head2.len() as int] == head1[head2.len() as int]);
    } else {
        assert(head1 =~= k.subrange(0, head1.len() as int));
        assert(head2 =~= k2.subrange(0, head2.len() as int));
        assert(rest1 =~= k.subrange(head1.len() as int + 1, k.len() as int));
        assert(rest2 =~= k2.subrange(head2.len() as int + 1, k2.len() as int));
    }
}

/// Key composition is injective: two triples whose parts hold no separator
/// character compose to the same key only when they are the same triple.
pub proof fn lemma_storage_key_injective(
    usecase1: Seq<char>,
    scope1: Seq<char>,
    identifier1: Seq<char>,
    usecase2: Seq<char>,
    scope2: Seq<char>,
    identifier2: Seq<char>,
)
    requires
        has_no_separator(usecase1),
        has_no_separator(scope1),
        has_no_separator(identifier1),
        has_no_separator(usecase2),
        has_no_separator(scope2),
        has_no_separator(identifier2),
        storage_key(usecase1, scope1, identifier1) == storage_key(usecase2, scope2, identifier2),
    ensures
        usecase1 == usecase2,
        scope1 == scope2,
        identifier1 == identifier2,
{
    let rest1 = scope1 + seq!['/'] + identifier1;
    let rest2 = scope2 + seq!['/'] + identifier2;
    assert(storage_key(usecase1, scope1, identifier1) =~= usecase1 + seq!['/'] + rest1);
    assert(storage_key(usecase2, scope2, identifier2) =~= usecase2 + seq!['/'] + rest2);
    lemma_split_at_first_separator(usecase1, rest1, usecase2, rest2);
    lemma_split_at_first_separator(scope1, identifier1, scope2, identifier2);
}

} // verus!
