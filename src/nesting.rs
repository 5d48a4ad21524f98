use vstd::prelude::*;

verus! {

broadcast use vstd::string::axiom_spec_iter;

/// The deepest element nesting that a report may reach. Real coverage
/// reports nest a handful of levels; the tree builder recurses once per
/// level, so the bound keeps it far from the end of the stack.
pub const MAX_NESTING: u64 = 256;

/// Where a scan of report text stands after some prefix.
#[derive(Clone, Copy, Debug, PartialEq, Eq, Structural)]
pub enum ScanMode {
    /// Character data between tags.
    Text,
    /// Just after `<`.
    Lt,
    /// Inside a start tag, outside quotes.
    StartTag,
    /// Inside a start tag, just after `/`.
    StartTagSlash,
    /// Inside a double-quoted attribute value.
    QuoteDouble,
    /// Inside a single-quoted attribute value.
    QuoteSingle,
    /// Inside an end tag.
    EndTag,
    /// Inside markup that opened while no element was open; it ends at the
    /// next `>`.
    Prolog,
    /// Just after `<!` inside an element.
    Bang,
    /// Just after `<!-` inside an element.
    BangDash,
    /// Inside a comment, after zero, one, or two or more trailing dashes.
    Comment,
    CommentDash,
    CommentDashes,
    /// Inside a CDATA section, after zero, one, or two or more trailing `]`.
    CData,
    CDataBracket,
    CDataBrackets,
    /// Markup that the scan does not follow: from here on only openings
    /// are counted.
    Blind,
}

/// The mode after reading `c` in mode `m` with `depth` open elements.
pub open spec fn next_mode(m: ScanMode, depth: nat, c: char) -> ScanMode {
    match m {
        ScanMode::Text => if c == '<' { ScanMode::Lt } else { ScanMode::Text },
        ScanMode::Lt => if c == '/' {
            ScanMode::EndTag
        } else if c == '!' {
            if depth == 0 { ScanMode::Prolog } else { ScanMode::Bang }
        } else if c == '?' {
            if depth == 0 { ScanMode::Prolog } else { ScanMode::Blind }
        } else if c == '<' {
            ScanMode::Lt
        } else {
            ScanMode::StartTag
        },
        ScanMode::StartTag | ScanMode::StartTagSlash => if c == '<' {
            ScanMode::Lt
        } else if c == '"' {
            ScanMode::QuoteDouble
        } else if c == '\'' {
            ScanMode::QuoteSingle
        } else if c == '/' {
            ScanMode::StartTagSlash
        } else if c == '>' {
            ScanMode::Text
        } else {
            ScanMode::StartTag
        },
        ScanMode::QuoteDouble => if c == '"' { ScanMode::StartTag } else { ScanMode::QuoteDouble },
        ScanMode::QuoteSingle => if c == '\'' { ScanMode::StartTag } else { ScanMode::QuoteSingle },
        ScanMode::EndTag => if c == '>' {
            ScanMode::Text
        } else if c == '<' {
            ScanMode::Lt
        } else {
            ScanMode::EndTag
        },
        ScanMode::Prolog => if c == '>' { ScanMode::Text } else { ScanMode::Prolog },
        ScanMode::Bang => if c == '-' {
            ScanMode::BangDash
        } else if c == '[' {
            ScanMode::CData
        } else {
            ScanMode::Blind
        },
        ScanMode::BangDash => if c == '-' { ScanMode::Comment } else { ScanMode::Blind },
        ScanMode::Comment | ScanMode::CommentDash | ScanMode::CommentDashes => if c == '<' {
            ScanMode::Blind
        } else if c == '>' && m == ScanMode::CommentDashes {
            ScanMode::Text
        } else if c == '-' {
            if m == ScanMode::Comment { ScanMode::CommentDash } else { ScanMode::CommentDashes }
        } else {
            ScanMode::Comment
        },
        ScanMode::CData | ScanMode::CDataBracket | ScanMode::CDataBrackets => if c == '<' {
            ScanMode::Blind
        } else if c == '>' && m == ScanMode::CDataBrackets {
            ScanMode::Text
        } else if c == ']' {
            if m == ScanMode::CData { ScanMode::CDataBracket } else { ScanMode::CDataBrackets }
        } else {
            ScanMode::CData
        },
        ScanMode::Blind => ScanMode::Blind,
    }
}

/// The count of open elements after reading `c`: every `<` followed by
/// anything but `/`, `!` or `?` may open one; an end tag, or `/>` closing a
/// start tag, closes one.
pub open spec fn next_depth(m: ScanMode, depth: nat, after_lt: bool, c: char) -> nat {
    if after_lt && c != '/' && c != '!' && c != '?' {
        depth + 1
    } else if (m == ScanMode::Lt && c == '/') || (m == ScanMode::StartTagSlash && c == '>') {
        if depth == 0 { 0 } else { (depth - 1) as nat }
    } else {
        depth
    }
}

/// Mode, open-element count, and whether the last character was `<`, after
/// scanning `s`.
pub open spec fn scan(s: Seq<char>) -> (ScanMode, nat, bool)
    decreases s.len(),
{
    if s.len() == 0 {
        (ScanMode::Text, 0, false)
    } else {
        let (m, d, lt) = scan(s.drop_last());
        let c = s.last();
        (next_mode(m, d, c), next_depth(m, d, lt, c), c == '<')
    }
}

/// Whether the open-element count of the scan stays within `limit` over
/// every prefix of `s`. The count never falls below the nesting depth that
/// the XML parser reaches on `s`.
pub open spec fn nesting_within(s: Seq<char>, limit: nat) -> bool {
    forall|k: int| 0 <= k <= s.len() ==> (#[trigger] scan(s.take(k))).1 <= limit
}

/// One step of the scan: the mode and open-element count after `c`.
fn step(m: ScanMode, depth: u64, after_lt: bool, c: char) -> (r: (ScanMode, u64))
    requires
        depth < u64::MAX,
    ensures
        r.0 == next_mode(m, depth as nat, c),
        r.1 as nat == next_depth(m, depth as nat, after_lt, c),
{
    let mode = match m {
        ScanMode::Text => if c == '<' { ScanMode::Lt } else { ScanMode::Text },
        ScanMode::Lt => if c == '/' {
            ScanMode::EndTag
        } else if c == '!' {
            if depth == 0 { ScanMode::Prolog } else { ScanMode::Bang }
        } else if c == '?' {
            if depth == 0 { ScanMode::Prolog } else { ScanMode::Blind }
        } else if c == '<' {
            ScanMode::Lt
        } else {
            ScanMode::StartTag
        },
        ScanMode::StartTag | ScanMode::StartTagSlash => if c == '<' {
            ScanMode::Lt
        } else if c == '"' {
            ScanMode::QuoteDouble
        } else if c == '\'' {
            ScanMode::QuoteSingle
        } else if c == '/' {
            ScanMode::StartTagSlash
        } else if c == '>' {
            ScanMode::Text
        } else {
            ScanMode::StartTag
        },
        ScanMode::QuoteDouble => if c == '"' { ScanMode::StartTag } else { ScanMode::QuoteDouble },
        ScanMode::QuoteSingle => if c == '\'' { ScanMode::StartTag } else { ScanMode::QuoteSingle },
        ScanMode::EndTag => if c == '>' {
            ScanMode::Text
        } else if c == '<' {
            ScanMode::Lt
        } else {
            ScanMode::EndTag
        },
        ScanMode::Prolog => if c == '>' { ScanMode::Text } else { ScanMode::Prolog },
        ScanMode::Bang => if c == '-' {
            ScanMode::BangDash
        } else if c == '[' {
            ScanMode::CData
        } else {
            ScanMode::Blind
        },
        ScanMode::BangDash => if c == '-' { ScanMode::Comment } else { ScanMode::Blind },
        ScanMode::Comment | ScanMode::CommentDash | ScanMode::CommentDashes => if c == '<' {
            ScanMode::Blind
        } else if c == '>' && m == ScanMode::CommentDashes {
            ScanMode::Text
        } else if c == '-' {
            if m == ScanMode::Comment { ScanMode::CommentDash } else { ScanMode::CommentDashes }
        } else {
            ScanMode::Comment
        },
        ScanMode::CData | ScanMode::CDataBracket | ScanMode::CDataBrackets => if c == '<' {
            ScanMode::Blind
        } else if c == '>' && m == ScanMode::CDataBrackets {
            ScanMode::Text
        } else if c == ']' {
            if m == ScanMode::CData { ScanMode::CDataBracket } else { ScanMode::CDataBrackets }
        } else {
            ScanMode::CData
        },
        ScanMode::Blind => ScanMode::Blind,
    };
    let d = if after_lt && c != '/' && c != '!' && c != '?' {
        depth + 1
    } else if (m == ScanMode::Lt && c == '/') || (m == ScanMode::StartTagSlash && c == '>') {
        if depth == 0 { 0 } else { depth - 1 }
    } else {
        depth
    };
    (mode, d)
}

/// Whether the element nesting of `text` stays within `MAX_NESTING`, by the
/// scan above.
pub fn nesting_within_limit(text: &str) -> (r: bool)
    ensures
        r == nesting_within(text@, MAX_NESTING as nat),
{
    let mut mode = ScanMode::Text;
    let mut depth: u64 = 0;
    let mut after_lt = false;
    proof {
        assert(text@.take(0) =~= Seq::<char>::empty());
    }
    for c in it: text.chars()
        invariant
            it.seq() == text@,
            0 <= it.index() <= text@.len(),
            scan(text@.take(it.index() as int)) == (mode, depth as nat, after_lt),
            forall|k: int| 0 <= k <= it.index() ==> (#[trigger] scan(text@.take(k))).1 <= MAX_NESTING,
    {
        let (m, d) = step(mode, depth, after_lt, c);
        proof {
            assert(text@.take(it.index() + 1).drop_last() =~= text@.take(it.index() as int));
        }
        if d > MAX_NESTING {
            proof {
                let k = it.index() + 1;
                assert(text@.take(k).last() == c);
                assert(scan(text@.take(k)).1 > MAX_NESTING);
            }
            return false;
        }
        mode = m;
        depth = d;
        after_lt = c == '<';
    }
    proof {
        assert(text@.take(text@.len() as int) =~= text@);
    }
    true
}

} // verus!
