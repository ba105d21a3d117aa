use vstd::prelude::*;

verus! {

/// Which native interface a set of bindings covers.
#[derive(Debug, Clone, Copy, PartialEq, Eq, Structural)]
pub enum Subsystem {
    /// The filesystem interface: symbols named `fuse...`.
    Fuse,
    /// The character device interface: symbols named `cuse...`.
    Cuse,
}

/// The kind of a native symbol.
#[derive(Debug, Clone, Copy, PartialEq, Eq, Structural)]
pub enum SymbolKind {
    Type,
    Function,
    Var,
}

/// The symbol filter of one generation: the subsystem, and whether the
/// target is macOS, where one more type is needed.
#[derive(Debug, Clone, Copy, PartialEq, Eq, Structural)]
pub struct SymbolFilter {
    pub subsystem: Subsystem,
    pub target_macos: bool,
}

/// The symbol prefix of a subsystem, in lower case.
pub open spec fn prefix_lower(s: Subsystem) -> Seq<char> {
    match s {
        Subsystem::Fuse => seq!['f', 'u', 's', 'e'],
        Subsystem::Cuse => seq!['c', 'u', 's', 'e'],
    }
}

/// The symbol prefix of a subsystem, in upper case.
pub open spec fn prefix_upper(s: Subsystem) -> Seq<char> {
    match s {
        Subsystem::Fuse => seq!['F', 'U', 'S', 'E'],
        Subsystem::Cuse => seq!['C', 'U', 'S', 'E'],
    }
}

/// `c` matches the letter given in both cases when case is ignored; `s` also
/// matches the long s (U+017F), which folds to it.
pub open spec fn matches_ignoring_case(c: char, lower: char, upper: char) -> bool {
    c == lower || c == upper || (lower == 's' && c == '\u{17f}')
}

/// `name` matches the allow pattern as a whole: the prefix with its case
/// ignored, then any characters but a line feed.
pub open spec fn matches_prefix_pattern(s: Subsystem, name: Seq<char>) -> bool {
    &&& name.len() >= 4
    &&& forall|i: int|
        0 <= i < 4 ==> #[trigger] matches_ignoring_case(
            name[i],
            prefix_lower(s)[i],
            prefix_upper(s)[i],
        )
    &&& forall|i: int| 4 <= i < name.len() ==> #[trigger] name[i] != '\n'
}

/// Symbols that are never emitted: the logging callback type and its setter,
/// which are not bound yet.
pub open spec fn is_denied(s: Subsystem, kind: SymbolKind, name: Seq<char>) -> bool {
    s == Subsystem::Fuse && ((kind == SymbolKind::Type && name == "fuse_log_func_t"@) || (kind
        == SymbolKind::Function && name == "fuse_set_log_func"@))
}

/// Symbols allowed besides the prefix: `setattr_x`, a type that the macOS
/// headers need.
pub open spec fn is_extra_allowed(f: SymbolFilter, kind: SymbolKind, name: Seq<char>) -> bool {
    f.subsystem == Subsystem::Fuse && f.target_macos && kind == SymbolKind::Type && name
        == "setattr_x"@
}

/// Whether the generator may emit the symbol.
pub open spec fn allowed_spec(f: SymbolFilter, kind: SymbolKind, name: Seq<char>) -> bool {
    (matches_prefix_pattern(f.subsystem, name) || is_extra_allowed(f, kind, name)) && !is_denied(
        f.subsystem,
        kind,
        name,
    )
}

/// The patterns handed to the generator, which carry out the filter.
#[derive(Debug, Clone, PartialEq, Eq)]
pub struct FilterPatterns {
    /// Allow pattern for types, functions and variables alike. Case folding
    /// is written out as character classes, so that the pattern needs no
    /// Unicode case tables in the generator's regex engine.
    pub allow: String,
    /// Types allowed by exact name besides the pattern.
    pub extra_types: Vec<String>,
    /// Types denied by exact name.
    pub blocked_types: Vec<String>,
    /// Functions denied by exact name.
    pub blocked_functions: Vec<String>,
}

/// `p` is what the generator is handed for the filter `f`.
pub open spec fn patterns_spec(f: SymbolFilter, p: FilterPatterns) -> bool {
    &&& f.subsystem == Subsystem::Fuse ==> p.allow@ == "^[fF][uU][sS\u{17f}][eE].*"@
    &&& f.subsystem == Subsystem::Cuse ==> p.allow@ == "^[cC][uU][sS\u{17f}][eE].*"@
    &&& p.extra_types@.len() == if is_extra_allowed(f, SymbolKind::Type, "setattr_x"@) {
        1int
    } else {
        0int
    }
    &&& p.extra_types@.len() == 1 ==> p.extra_types@[0]@ == "setattr_x"@
    &&& f.subsystem == Subsystem::Fuse ==> {
        &&& p.blocked_types@.len() == 1
        &&& p.blocked_types@[0]@ == "fuse_log_func_t"@
        &&& p.blocked_functions@.len() == 1
        &&& p.blocked_functions@[0]@ == "fuse_set_log_func"@
    }
    &&& f.subsystem == Subsystem::Cuse ==> p.blocked_types@.len() == 0
        && p.blocked_functions@.len() == 0
}

fn prefix_matches(subsystem: Subsystem, name: &str) -> (r: bool)
    ensures
        r == matches_prefix_pattern(subsystem, name@),
{
    let len = name.unicode_len();
    if len < 4 {
        return false;
    }
    let (lower, upper): ([char; 4], [char; 4]) = match subsystem {
        Subsystem::Fuse => (['f', 'u', 's', 'e'], ['F', 'U', 'S', 'E']),
        Subsystem::Cuse => (['c', 'u', 's', 'e'], ['C', 'U', 'S', 'E']),
    };
    assert(lower@ == prefix_lower(subsystem));
    assert(upper@ == prefix_upper(subsystem));
    let mut i: usize = 0;
    while i < 4
        invariant
            0 <= i <= 4,
            len == name@.len(),
            len >= 4,
            lower@ == prefix_lower(subsystem),
            upper@ == prefix_upper(subsystem),
            forall|k: int|
                0 <= k < i ==> #[trigger] matches_ignoring_case(
                    name@[k],
                    prefix_lower(subsystem)[k],
                    prefix_upper(subsystem)[k],
                ),
        decreases 4 - i,
    {
        let c = name.get_char(i);
        if !(c == lower[i] || c == upper[i] || (lower[i] == 's' && c == '\u{17f}')) {
            assert(!matches_ignoring_case(
                name@[i as int],
                prefix_lower(subsystem)[i as int],
                prefix_upper(subsystem)[i as int],
            ));
            return false;
        }
        i = i + 1;
    }
    let mut j: usize = 4;
    while j < len
        invariant
            4 <= j <= len,
            len == name@.len(),
            forall|k: int| 4 <= k < j ==> #[trigger] name@[k] != '\n',
        decreases len - j,
    {
        if name.get_char(j) == '\n' {
            return false;
        }
        j = j + 1;
    }
    true
}

fn same_text(a: &str, b: &str) -> (r: bool)
    ensures
        r == (a@ == b@),
{
    let x = String::from_str(a);
    let y = String::from_str(b);
    x == y
}

impl SymbolFilter {
    /// Whether the generator may emit a symbol of this kind and name: it
    /// matches the subsystem's prefix (or is an extra allowed type) and is not
    /// denied.
    pub fn allows(&self, kind: SymbolKind, name: &str) -> (r: bool)
        ensures
            r == allowed_spec(*self, kind, name@),
    {
        let denied = match self.subsystem {
            Subsystem::Fuse => match kind {
                SymbolKind::Type => same_text(name, "fuse_log_func_t"),
                SymbolKind::Function => same_text(name, "fuse_set_log_func"),
                SymbolKind::Var => false,
            },
            Subsystem::Cuse => false,
        };
        if denied {
            return false;
        }
        let extra = self.subsystem == Subsystem::Fuse && self.target_macos && kind
            == SymbolKind::Type && same_text(name, "setattr_x");
        extra || prefix_matches(self.subsystem, name)
    }

    /// The patterns that carry out this filter in the generator.
    pub fn patterns(&self) -> (r: FilterPatterns)
        ensures
            patterns_spec(*self, r),
    {
        match self.subsystem {
            Subsystem::Fuse => {
                let mut extra_types: Vec<String> = Vec::new();
                if self.target_macos {
                    extra_types.push(String::from_str("setattr_x"));
                }
                FilterPatterns {
                    allow: String::from_str("^[fF][uU][sS\u{17f}][eE].*"),
                    extra_types,
                    blocked_types: vec![String::from_str("fuse_log_func_t")],
                    blocked_functions: vec![String::from_str("fuse_set_log_func")],
                }
            },
            Subsystem::Cuse => FilterPatterns {
                allow: String::from_str("^[cC][uU][sS\u{17f}][eE].*"),
                extra_types: Vec::new(),
                blocked_types: Vec::new(),
                blocked_functions: Vec::new(),
            },
        }
    }
}

} // verus!
