//! Settings the service derives from its configuration.

use vstd::prelude::*;
use vstd::string::*;
use crate::text::chars_of;

verus! {

/// The setting that names the bucket of uploaded assets.
pub open spec fn asset_bucket_setting_name() -> Seq<char> {
    "MINIO_BUCKET"@
}

/// The bucket of uploaded assets when none is configured.
pub open spec fn default_asset_bucket_name() -> Seq<char> {
    "images"@
}

/// The setting that names the bucket of uploaded assets.
pub fn asset_bucket_setting() -> (s: &'static str)
    ensures
        s@ == asset_bucket_setting_name(),
{
    "MINIO_BUCKET"
}

/// The bucket of uploaded assets when none is configured.
pub fn default_asset_bucket() -> (s: &'static str)
    ensures
        s@ == default_asset_bucket_name(),
{
    "images"
}

/// The public base address of stored objects when none is configured.
pub open spec fn default_base_url_text() -> Seq<char> {
    "http://localhost:9000"@
}

/// The public base address of stored objects when none is configured.
pub fn default_base_url() -> (s: &'static str)
    ensures
        s@ == default_base_url_text(),
{
    "http://localhost:9000"
}

/// The position of the last `c` in `s`, or -1 where there is none.
pub open spec fn last_index_of(s: Seq<char>, c: char) -> int
    decreases s.len(),
{
    if s.len() == 0 {
        -1
    } else if s.last() == c {
        s.len() - 1
    } else {
        last_index_of(s.drop_last(), c)
    }
}

/// The position of the first `c` in `s`, or the length of `s` where there
/// is none.
pub open spec fn first_index_of(s: Seq<char>, c: char) -> int
    decreases s.len(),
{
    if s.len() == 0 {
        0
    } else if s[0] == c {
        0
    } else {
        1 + first_index_of(s.drop_first(), c)
    }
}

/// The name of the database that a connection URI names: the text after
/// its last `/` and before the first `?` that follows, or `asset` where
/// that text is empty.
pub open spec fn database_name_of(uri: Seq<char>) -> Seq<char> {
    let segment = uri.subrange(last_index_of(uri, '/') + 1, uri.len() as int);
    let name = segment.subrange(0, first_index_of(segment, '?'));
    if name.len() == 0 {
        "asset"@
    } else {
        name
    }
}

/// The database to use for a connection URI.
pub fn database_name(uri: &str) -> (name: String)
    ensures
        name@ == database_name_of(uri@),
{
    let chars = chars_of(uri);
    let n = chars.len();
    let mut start: usize = n;
    assert(uri@.subrange(0, n as int) =~= uri@);
    while start > 0 && chars[start - 1] != '/'
        invariant
            chars@ == uri@,
            n == uri@.len(),
            start <= n,
            last_index_of(uri@, '/') == last_index_of(uri@.subrange(0, start as int), '/'),
        decreases start,
    {
        assert(uri@.subrange(0, start as int).drop_last() =~= uri@.subrange(0, start - 1));
        start = start - 1;
    }
    proof {
        if start > 0 {
            assert(uri@.subrange(0, start as int).last() == '/');
        }
        assert(last_index_of(uri@, '/') + 1 == start);
    }
    let ghost segment = uri@.subrange(start as int, n as int);
    let mut end: usize = start;
    assert(uri@.subrange(start as int, n as int) =~= segment);
    while end < n && chars[end] != '?'
        invariant
            chars@ == uri@,
            n == uri@.len(),
            start <= end <= n,
            segment == uri@.subrange(start as int, n as int),
            first_index_of(segment, '?') == (end - start) + first_index_of(
                uri@.subrange(end as int, n as int),
                '?',
            ),
        decreases n - end,
    {
        assert(uri@.subrange(end as int, n as int).drop_first() =~= uri@.subrange(end + 1, n as int));
        end = end + 1;
    }
    proof {
        if end < n {
            assert(uri@.subrange(end as int, n as int)[0] == '?');
        }
        assert(first_index_of(segment, '?') == end - start);
        assert(segment.subrange(0, (end - start) as int) =~= uri@.subrange(start as int, end as int));
    }
    if end == start {
        String::from_str("asset")
    } else {
        String::from_str(uri.substring_char(start, end))
    }
}

/// A connection URI always names some database.
pub proof fn law_database_name_never_empty(uri: Seq<char>)
    ensures
        database_name_of(uri).len() > 0,
{
    reveal_strlit("asset");
}

} // verus!
