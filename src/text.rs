use vstd::prelude::*;

verus! {

/// The character of a single decimal digit.
pub open spec fn digit_char(d: nat) -> char {
    if d == 0 { '0' }
    else if d == 1 { '1' }
    else if d == 2 { '2' }
    else if d == 3 { '3' }
    else if d == 4 { '4' }
    else if d == 5 { '5' }
    else if d == 6 { '6' }
    else if d == 7 { '7' }
    else if d == 8 { '8' }
    else { '9' }
}

/// The decimal notation of `n`, most significant digit first, without
/// leading zeros.
pub open spec fn decimal_spec(n: nat) -> Seq<char>
    decreases n,
{
    if n < 10 {
        seq![digit_char(n)]
    } else {
        decimal_spec(n / 10).push(digit_char(n % 10))
    }
}

fn digit_str(d: u32) -> (r: &'static str)
    requires
        d < 10,
    ensures
        r@ == seq![digit_char(d as nat)],
{
    if d == 0 {
        proof { reveal_strlit("0"); }
        "0"
    } else if d == 1 {
        proof { reveal_strlit("1"); }
        "1"
    } else if d == 2 {
        proof { reveal_strlit("2"); }
        "2"
    } else if d == 3 {
        proof { reveal_strlit("3"); }
        "3"
    } else if d == 4 {
        proof { reveal_strlit("4"); }
        "4"
    } else if d == 5 {
        proof { reveal_strlit("5"); }
        "5"
    } else if d == 6 {
        proof { reveal_strlit("6"); }
        "6"
    } else if d == 7 {
        proof { reveal_strlit("7"); }
        "7"
    } else if d == 8 {
        proof { reveal_strlit("8"); }
        "8"
    } else {
        proof { reveal_strlit("9"); }
        "9"
    }
}

/// Writes `n` in decimal.
pub fn decimal(n: u32) -> (r: String)
    ensures
        r@ == decimal_spec(n as nat),
    decreases n,
{
    if n < 10 {
        String::from_str(digit_str(n))
    } else {
        let mut r = decimal(n / 10);
        r.append(digit_str(n % 10));
        r
    }
}

/// `file` joined onto the directory `dir` with `/` as separator: an absolute
/// `file` replaces `dir`, an empty `dir` or one that already ends in `/`
/// takes no extra separator.
pub open spec fn join_path_spec(dir: Seq<char>, file: Seq<char>) -> Seq<char> {
    if file.len() > 0 && file[0] == '/' {
        file
    } else if dir.len() == 0 || dir.last() == '/' {
        dir + file
    } else {
        dir + seq!['/'] + file
    }
}

/// Joins a file name onto a directory.
pub fn join_path(dir: &str, file: &str) -> (r: String)
    ensures
        r@ == join_path_spec(dir@, file@),
{
    let dir_len = dir.unicode_len();
    let file_len = file.unicode_len();
    if file_len > 0 && file.get_char(0) == '/' {
        String::from_str(file)
    } else if dir_len == 0 || dir.get_char(dir_len - 1) == '/' {
        let mut r = String::from_str(dir);
        r.append(file);
        r
    } else {
        let mut r = String::from_str(dir);
        proof { reveal_strlit("/"); }
        r.append("/");
        r.append(file);
        r
    }
}

/// `s` with every `.h` replaced by `.rs`, scanning from the left.
pub open spec fn replace_h_spec(s: Seq<char>) -> Seq<char>
    decreases s.len(),
{
    if s.len() < 2 {
        s
    } else if s[0] == '.' && s[1] == 'h' {
        seq!['.', 'r', 's'] + replace_h_spec(s.skip(2))
    } else {
        seq![s[0]] + replace_h_spec(s.skip(1))
    }
}

/// The name of the generated bindings file for a header: every `.h` in the
/// name becomes `.rs` (`fuse.h` gives `fuse.rs`).
pub fn bindings_file_name(header: &str) -> (r: String)
    ensures
        r@ == replace_h_spec(header@),
    decreases header@.len(),
{
    let len = header.unicode_len();
    if len < 2 {
        String::from_str(header)
    } else if header.get_char(0) == '.' && header.get_char(1) == 'h' {
        let rest = bindings_file_name(header.substring_char(2, len));
        proof { reveal_strlit(".rs"); }
        let mut r = String::from_str(".rs");
        r.append(rest.as_str());
        assert(header@.skip(2) =~= header@.subrange(2, len as int));
        r
    } else {
        let rest = bindings_file_name(header.substring_char(1, len));
        let mut r = String::from_str(header.substring_char(0, 1));
        r.append(rest.as_str());
        assert(header@.skip(1) =~= header@.subrange(1, len as int));
        assert(header@.subrange(0, 1) =~= seq![header@[0]]);
        r
    }
}

} // verus!
