//! Decisions made around fetching and unpacking: the compression of a
//! bootstrap archive, and the announced size of a download.

use vstd::prelude::*;

verus! {

/// The compressions that a bootstrap archive may use.
#[derive(Clone, Copy, Debug, PartialEq, Eq, Structural)]
pub enum ArchiveFormat {
    Gzip,
    Xz,
    Zstd,
}

/// The last component of `path`: what follows its last `/`.
pub open spec fn file_name(path: Seq<char>) -> Seq<char>
    decreases path.len(),
{
    if path.len() == 0 {
        path
    } else if path.last() == '/' {
        seq![]
    } else {
        file_name(path.drop_last()).push(path.last())
    }
}

/// What follows the last `.` of a file name, unless that `.` is its first
/// character or it has none.
pub open spec fn extension(name: Seq<char>) -> Option<Seq<char>>
    decreases name.len(),
{
    if name.len() <= 1 {
        None
    } else if name.last() == '.' {
        Some(seq![])
    } else {
        match extension(name.drop_last()) {
            Some(e) => Some(e.push(name.last())),
            None => None,
        }
    }
}

/// The compression that an extension names.
pub open spec fn format_of(ext: Seq<char>) -> Option<ArchiveFormat> {
    if ext == "gz"@ {
        Some(ArchiveFormat::Gzip)
    } else if ext == "xz"@ {
        Some(ArchiveFormat::Xz)
    } else if ext == "zst"@ || ext == "zstd"@ {
        Some(ArchiveFormat::Zstd)
    } else {
        None
    }
}

/// The last component of `path`.
fn base_name(path: &str) -> (r: &str)
    ensures
        r@ == file_name(path@),
{
    let n = path.unicode_len();
    let mut i: usize = n;
    assert(path@.take(n as int) =~= path@);
    assert(path@.subrange(n as int, n as int) =~= Seq::<char>::empty());
    assert(file_name(path@) =~= file_name(path@.take(n as int)) + path@.subrange(n as int, n as int));
    while i > 0
        invariant
            n == path@.len(),
            i <= n,
            file_name(path@) == file_name(path@.take(i as int)) + path@.subrange(i as int, n as int),
        decreases i,
    {
        assert(path@.take(i as int).drop_last() =~= path@.take(i - 1));
        assert(path@.take(i as int).last() == path@[i - 1]);
        if path.get_char(i - 1) == '/' {
            assert(file_name(path@.take(i as int)) =~= Seq::<char>::empty());
            return path.substring_char(i, n);
        }
        assert(path@.subrange(i - 1, n as int) =~= seq![path@[i - 1]] + path@.subrange(i as int, n as int));
        assert(file_name(path@.take(i - 1)) + path@.subrange(i - 1, n as int) =~= file_name(path@.take(i - 1)).push(path@[i - 1]) + path@.subrange(i as int, n as int));
        i = i - 1;
    }
    assert(path@.take(0) =~= Seq::<char>::empty());
    path.substring_char(0, n)
}

/// The extension of a file name, if any.
fn name_extension(name: &str) -> (r: Option<&str>)
    ensures
        r is Some == extension(name@) is Some,
        r is Some ==> r->Some_0@ == extension(name@)->Some_0,
{
    let n = name.unicode_len();
    let mut i: usize = n;
    assert(name@.take(n as int) =~= name@);
    assert(name@.subrange(n as int, n as int) =~= Seq::<char>::empty());
    while i > 1
        invariant
            n == name@.len(),
            i <= n,
            extension(name@) == (match extension(name@.take(i as int)) {
                Some(e) => Some(e + name@.subrange(i as int, n as int)),
                None => None,
            }),
        decreases i,
    {
        assert(name@.take(i as int).drop_last() =~= name@.take(i - 1));
        assert(name@.take(i as int).last() == name@[i - 1]);
        if name.get_char(i - 1) == '.' {
            assert(Seq::<char>::empty() + name@.subrange(i as int, n as int) =~= name@.subrange(
                i as int,
                n as int,
            ));
            return Some(name.substring_char(i, n));
        }
        proof {
            match extension(name@.take(i - 1)) {
                Some(e) => {
                    assert(e.push(name@[i - 1]) + name@.subrange(i as int, n as int) =~= e
                        + name@.subrange(i - 1, n as int));
                },
                None => {},
            }
        }
        i = i - 1;
    }
    None
}

/// The compression of a bootstrap archive, read from the extension of its
/// file name.
pub open spec fn archive_format_of(path: Seq<char>) -> Option<ArchiveFormat> {
    match extension(file_name(path)) {
        Some(e) => format_of(e),
        None => None,
    }
}

/// The compression of the bootstrap archive at `path`, read from the
/// extension of its file name (`gz`, `xz`, `zst` or `zstd`); any other
/// extension, or none, is refused with a message that names it.
pub fn archive_format(path: &str) -> (r: Result<ArchiveFormat, String>)
    ensures
        r is Ok <==> archive_format_of(path@) is Some,
        r is Ok ==> r->Ok_0 == archive_format_of(path@)->Some_0,
        r is Err ==> r->Err_0@ == "Unsupported or disabled format: ."@ + (match extension(
            file_name(path@),
        ) {
            Some(e) => e,
            None => seq![],
        }),
{
    proof {
        reveal_strlit("");
        reveal_strlit("gz");
        reveal_strlit("xz");
        reveal_strlit("zst");
        reveal_strlit("zstd");
    }
    let name = base_name(path);
    let ext = match name_extension(name) {
        Some(e) => e,
        None => "",
    };
    assert(ext@ == (match extension(file_name(path@)) {
        Some(e) => e,
        None => seq![],
    }));
    assert("gz"@.len() == 2 && "xz"@.len() == 2 && "zst"@.len() == 3 && "zstd"@.len() == 4);
    assert(format_of(seq![]) is None);
    if crate::text::same_text(ext, "gz") {
        Ok(ArchiveFormat::Gzip)
    } else if crate::text::same_text(ext, "xz") {
        Ok(ArchiveFormat::Xz)
    } else if crate::text::same_text(ext, "zst") || crate::text::same_text(ext, "zstd") {
        Ok(ArchiveFormat::Zstd)
    } else {
        Err(String::from_str("Unsupported or disabled format: .").concat(ext))
    }
}

/// The value of a decimal numeral: its digits, most significant first.
pub open spec fn numeral_value(s: Seq<char>) -> nat
    decreases s.len(),
{
    if s.len() == 0 {
        0
    } else {
        numeral_value(s.drop_last()) * 10 + (s.last() as nat - '0' as nat) as nat
    }
}

/// Whether `s` is a non-empty run of decimal digits.
pub open spec fn is_numeral(s: Seq<char>) -> bool {
    s.len() > 0 && forall|i: int| 0 <= i < s.len() ==> '0' <= #[trigger] s[i] <= '9'
}

/// The unsigned 64-bit integer that `s` writes in decimal, with an optional
/// leading `+`, if it is one.
pub open spec fn parsed_u64(s: Seq<char>) -> Option<u64> {
    let body = if s.len() > 0 && s[0] == '+' {
        s.drop_first()
    } else {
        s
    };
    if is_numeral(body) && numeral_value(body) <= u64::MAX {
        Some(numeral_value(body) as u64)
    } else {
        None
    }
}

/// The size that a download announces in its `Content-Length` header, or
/// zero when the header is not a number.
pub fn content_length(header: &str) -> (r: u64)
    ensures
        r == (match parsed_u64(header@) {
            Some(v) => v,
            None => 0,
        }),
{
    let n = header.unicode_len();
    let start: usize = if n > 0 && header.get_char(0) == '+' {
        1
    } else {
        0
    };
    let ghost body = if header@.len() > 0 && header@[0] == '+' {
        header@.drop_first()
    } else {
        header@
    };
    assert(body =~= header@.subrange(start as int, n as int));
    if start == n {
        assert(body.len() == 0);
        assert(!is_numeral(body));
        return 0;
    }
    let mut value: u64 = 0;
    let mut i: usize = start;
    while i < n
        invariant
            start <= i <= n,
            n == header@.len(),
            body == header@.subrange(start as int, n as int),
            body == (if header@.len() > 0 && header@[0] == '+' {
                header@.drop_first()
            } else {
                header@
            }),
            forall|k: int| start <= k < i ==> '0' <= #[trigger] header@[k] <= '9',
            value as nat == numeral_value(header@.subrange(start as int, i as int)),
        decreases n - i,
    {
        let c = header.get_char(i);
        assert(header@.subrange(start as int, i + 1).drop_last() =~= header@.subrange(
            start as int,
            i as int,
        ));
        if c < '0' || c > '9' {
            assert(body[i - start] == c);
            assert(!is_numeral(body));
            return 0;
        }
        let d = (c as u32 - '0' as u32) as u64;
        if value > (u64::MAX - d) / 10 {
            assert(value * 10 + d > u64::MAX) by (nonlinear_arith)
                requires
                    value > (u64::MAX - d) / 10,
                    d <= 9,
            ;
            proof {
                lemma_numeral_grows(header@.subrange(start as int, n as int), (i - start) as int);
                assert(header@.subrange(start as int, n as int).take(i - start + 1) =~= header@.subrange(start as int, i + 1));
            }
            return 0;
        }
        value = value * 10 + d;
        i = i + 1;
    }
    value
}

/// A numeral is at least as large as each of its prefixes.
proof fn lemma_numeral_grows(s: Seq<char>, i: int)
    requires
        0 <= i < s.len(),
    ensures
        numeral_value(s) >= numeral_value(s.take(i + 1)),
    decreases s.len(),
{
    if i + 1 < s.len() {
        assert(s.drop_last().take(i + 1) =~= s.take(i + 1));
        lemma_numeral_grows(s.drop_last(), i);
    } else {
        assert(s.take(i + 1) =~= s);
    }
}

} // verus!
