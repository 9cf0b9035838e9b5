//! Tokenizer for the `.tens` DSL.
//!
//! The lexical rules are stated as spec functions over the source's
//! characters ([`lex_spec`]); [`lex`] is proved to compute exactly them.
//! Numeric literals are kept as their source text: a literal is a maximal
//! run of ASCII digits and `.` starting with a digit, and it is well formed
//! when it holds at most one `.` (every such run is then a decimal number).

use vstd::prelude::*;
use crate::error::{Error, ErrorModel};
use crate::text::{is_alpha, char_is_alphanumeric, chars_of, is_alphabetic, is_alphanumeric, is_digit, string_of};

verus! {

/// A token kind. Literal payloads are the source text.
#[derive(Debug, Clone, PartialEq)]
pub enum Tok {
    Num(String),
    Str(String),
    Ident(String),
    True,
    False,
    Plus,
    Minus,
    Star,
    Slash,
    Caret,
    Amp,
    Eq,
    Dot,
    Colon,
    Comma,
    LParen,
    RParen,
    LBracket,
    RBracket,
    Newline,
    Eof,
}

/// A token with the 1-based source line it starts on.
#[derive(Debug, Clone, PartialEq)]
pub struct Token {
    pub tok: Tok,
    pub line: usize,
}

/// Mathematical model of a token kind: payloads as character sequences.
pub enum TokModel {
    Num(Seq<char>),
    Str(Seq<char>),
    Ident(Seq<char>),
    True,
    False,
    Plus,
    Minus,
    Star,
    Slash,
    Caret,
    Amp,
    Eq,
    Dot,
    Colon,
    Comma,
    LParen,
    RParen,
    LBracket,
    RBracket,
    Newline,
    Eof,
}

pub struct TokenModel {
    pub tok: TokModel,
    pub line: nat,
}

impl View for Tok {
    type V = TokModel;

    open spec fn view(&self) -> TokModel {
        match self {
            Tok::Num(s) => TokModel::Num(s@),
            Tok::Str(s) => TokModel::Str(s@),
            Tok::Ident(s) => TokModel::Ident(s@),
            Tok::True => TokModel::True,
            Tok::False => TokModel::False,
            Tok::Plus => TokModel::Plus,
            Tok::Minus => TokModel::Minus,
            Tok::Star => TokModel::Star,
            Tok::Slash => TokModel::Slash,
            Tok::Caret => TokModel::Caret,
            Tok::Amp => TokModel::Amp,
            Tok::Eq => TokModel::Eq,
            Tok::Dot => TokModel::Dot,
            Tok::Colon => TokModel::Colon,
            Tok::Comma => TokModel::Comma,
            Tok::LParen => TokModel::LParen,
            Tok::RParen => TokModel::RParen,
            Tok::LBracket => TokModel::LBracket,
            Tok::RBracket => TokModel::RBracket,
            Tok::Newline => TokModel::Newline,
            Tok::Eof => TokModel::Eof,
        }
    }
}

impl View for Token {
    type V = TokenModel;

    open spec fn view(&self) -> TokenModel {
        TokenModel { tok: self.tok@, line: self.line as nat }
    }
}

pub open spec fn tokens_view(toks: Seq<Token>) -> Seq<TokenModel> {
    toks.map_values(|t: Token| t@)
}

// ---- lexical rules ---------------------------------------------------------

pub open spec fn is_number_char(c: char) -> bool {
    is_digit(c) || c == '.'
}

pub open spec fn is_ident_start(c: char) -> bool {
    is_alpha(c) || c == '_'
}

pub open spec fn is_ident_char(c: char) -> bool {
    char_is_alphanumeric(c) || c == '_'
}

/// End of the maximal run of number characters starting at `i`.
pub open spec fn number_end(s: Seq<char>, i: nat) -> nat
    decreases s.len() - i,
{
    if i < s.len() && is_number_char(s[i as int]) {
        number_end(s, i + 1)
    } else {
        i
    }
}

/// End of the maximal run of identifier characters starting at `i`.
pub open spec fn ident_end(s: Seq<char>, i: nat) -> nat
    decreases s.len() - i,
{
    if i < s.len() && is_ident_char(s[i as int]) {
        ident_end(s, i + 1)
    } else {
        i
    }
}

/// Index of the first `\n` at or after `i`, or the end of input.
pub open spec fn line_end(s: Seq<char>, i: nat) -> nat
    decreases s.len() - i,
{
    if i < s.len() && s[i as int] != '\n' {
        line_end(s, i + 1)
    } else {
        i
    }
}

pub open spec fn count_dots(s: Seq<char>) -> nat
    decreases s.len(),
{
    if s.len() == 0 {
        0
    } else {
        count_dots(s.drop_last()) + if s.last() == '.' { 1nat } else { 0nat }
    }
}

/// Body of a string literal whose opening quote precedes `i`: the decoded
/// contents (only `\"` is an escape; other backslashes stay verbatim) and
/// the index after the closing quote. `None` when a newline or the end of
/// input comes first.
pub open spec fn string_body(s: Seq<char>, i: nat) -> Option<(Seq<char>, nat)>
    decreases s.len() - i,
{
    if i >= s.len() {
        None
    } else if s[i as int] == '"' {
        Some((Seq::empty(), i + 1))
    } else if s[i as int] == '\n' {
        None
    } else if s[i as int] == '\\' && i + 1 < s.len() && s[i + 1int] == '"' {
        match string_body(s, i + 2) {
            Some((body, j)) => Some((seq!['"'] + body, j)),
            None => None,
        }
    } else {
        match string_body(s, i + 1) {
            Some((body, j)) => Some((seq![s[i as int]] + body, j)),
            None => None,
        }
    }
}

/// The one-character punctuation tokens.
pub open spec fn punct(c: char) -> Option<TokModel> {
    if c == '+' { Some(TokModel::Plus) }
    else if c == '-' { Some(TokModel::Minus) }
    else if c == '*' { Some(TokModel::Star) }
    else if c == '/' { Some(TokModel::Slash) }
    else if c == '^' { Some(TokModel::Caret) }
    else if c == '&' { Some(TokModel::Amp) }
    else if c == '=' { Some(TokModel::Eq) }
    else if c == '.' { Some(TokModel::Dot) }
    else if c == ':' { Some(TokModel::Colon) }
    else if c == ',' { Some(TokModel::Comma) }
    else if c == '(' { Some(TokModel::LParen) }
    else if c == ')' { Some(TokModel::RParen) }
    else if c == '[' { Some(TokModel::LBracket) }
    else if c == ']' { Some(TokModel::RBracket) }
    else { None }
}

/// Keyword or identifier for a word.
pub open spec fn word_token(w: Seq<char>) -> TokModel {
    if w == "true"@ {
        TokModel::True
    } else if w == "false"@ {
        TokModel::False
    } else {
        TokModel::Ident(w)
    }
}

pub open spec fn msg_unterminated_string() -> Seq<char> {
    "unterminated string literal"@
}

pub open spec fn msg_invalid_number(lexeme: Seq<char>) -> Seq<char> {
    "invalid number `"@ + lexeme + "`"@
}

pub open spec fn msg_unexpected_char(c: char) -> Seq<char> {
    "unexpected character `"@ + seq![c] + "`"@
}

pub open spec fn cons_tok(t: TokenModel, r: Result<Seq<TokenModel>, ErrorModel>) -> Result<
    Seq<TokenModel>,
    ErrorModel,
> {
    match r {
        Ok(rest) => Ok(seq![t] + rest),
        Err(e) => Err(e),
    }
}

pub open spec fn lex_err(message: Seq<char>, line: nat) -> Result<Seq<TokenModel>, ErrorModel> {
    Err(ErrorModel { message, line: Some(line) })
}

pub proof fn lemma_string_body_advances(s: Seq<char>, i: nat)
    ensures
        string_body(s, i) matches Some((_, j)) ==> i < j <= s.len(),
    decreases s.len() - i,
{
    if i < s.len() && s[i as int] != '"' && s[i as int] != '\n' {
        if s[i as int] == '\\' && i + 1 < s.len() && s[i + 1int] == '"' {
            lemma_string_body_advances(s, i + 2);
        } else {
            lemma_string_body_advances(s, i + 1);
        }
    }
}

pub proof fn lemma_number_end_bounds(s: Seq<char>, i: nat)
    requires
        i <= s.len(),
    ensures
        i <= number_end(s, i) <= s.len(),
        forall|k: int| i <= k < number_end(s, i) ==> is_number_char(#[trigger] s[k]),
        number_end(s, i) < s.len() ==> !is_number_char(s[number_end(s, i) as int]),
    decreases s.len() - i,
{
    if i < s.len() && is_number_char(s[i as int]) {
        lemma_number_end_bounds(s, i + 1);
    }
}

pub proof fn lemma_ident_end_bounds(s: Seq<char>, i: nat)
    requires
        i <= s.len(),
    ensures
        i <= ident_end(s, i) <= s.len(),
        ident_end(s, i) < s.len() ==> !is_ident_char(s[ident_end(s, i) as int]),
    decreases s.len() - i,
{
    if i < s.len() && is_ident_char(s[i as int]) {
        lemma_ident_end_bounds(s, i + 1);
    }
}

pub proof fn lemma_line_end_bounds(s: Seq<char>, i: nat)
    requires
        i <= s.len(),
    ensures
        i <= line_end(s, i) <= s.len(),
        line_end(s, i) < s.len() ==> s[line_end(s, i) as int] == '\n',
    decreases s.len() - i,
{
    if i < s.len() && s[i as int] != '\n' {
        lemma_line_end_bounds(s, i + 1);
    }
}

/// The tokens of `s` from index `i` on, the current line being `line`:
/// whitespace other than newlines is skipped, `#` starts a comment running
/// to the end of the line, every newline is a token, and the stream ends
/// with `Eof` on the last line.
pub open spec fn lex_from(s: Seq<char>, i: nat, line: nat) -> Result<Seq<TokenModel>, ErrorModel>
    decreases s.len() - i,
{
    if i >= s.len() {
        Ok(seq![TokenModel { tok: TokModel::Eof, line }])
    } else {
        let c = s[i as int];
        if c == ' ' || c == '\t' || c == '\r' {
            lex_from(s, i + 1, line)
        } else if c == '\n' {
            cons_tok(TokenModel { tok: TokModel::Newline, line }, lex_from(s, i + 1, line + 1))
        } else if c == '#' {
            proof {
                lemma_line_end_bounds(s, i + 1);
            }
            lex_from(s, line_end(s, i + 1), line)
        } else if c == '"' {
            proof {
                lemma_string_body_advances(s, i + 1);
            }
            match string_body(s, i + 1) {
                None => lex_err(msg_unterminated_string(), line),
                Some((body, j)) => cons_tok(
                    TokenModel { tok: TokModel::Str(body), line },
                    lex_from(s, j, line),
                ),
            }
        } else if is_digit(c) {
            proof {
                lemma_number_end_bounds(s, i);
            }
            let j = number_end(s, i);
            let lexeme = s.subrange(i as int, j as int);
            if count_dots(lexeme) <= 1 {
                cons_tok(TokenModel { tok: TokModel::Num(lexeme), line }, lex_from(s, j, line))
            } else {
                lex_err(msg_invalid_number(lexeme), line)
            }
        } else if is_ident_start(c) {
            proof {
                lemma_ident_end_bounds(s, i + 1);
            }
            let j = ident_end(s, i + 1);
            cons_tok(
                TokenModel { tok: word_token(s.subrange(i as int, j as int)), line },
                lex_from(s, j, line),
            )
        } else {
            match punct(c) {
                Some(t) => cons_tok(TokenModel { tok: t, line }, lex_from(s, i + 1, line)),
                None => lex_err(msg_unexpected_char(c), line),
            }
        }
    }
}

/// The token stream of a whole source text (lines are numbered from 1).
pub open spec fn lex_spec(s: Seq<char>) -> Result<Seq<TokenModel>, ErrorModel> {
    lex_from(s, 0, 1)
}

} // verus!

verus! {

pub open spec fn append_tokens(p: Seq<TokenModel>, r: Result<Seq<TokenModel>, ErrorModel>) -> Result<
    Seq<TokenModel>,
    ErrorModel,
> {
    match r {
        Ok(rest) => Ok(p + rest),
        Err(e) => Err(e),
    }
}

pub open spec fn prefix_body(acc: Seq<char>, r: Option<(Seq<char>, nat)>) -> Option<(Seq<char>, nat)> {
    match r {
        Some((b, j)) => Some((acc + b, j)),
        None => None,
    }
}

fn punct_tok(c: char) -> (r: Option<Tok>)
    ensures
        match r {
            Some(t) => punct(c) == Some(t@),
            None => punct(c) is None,
        },
{
    match c {
        '+' => Some(Tok::Plus),
        '-' => Some(Tok::Minus),
        '*' => Some(Tok::Star),
        '/' => Some(Tok::Slash),
        '^' => Some(Tok::Caret),
        '&' => Some(Tok::Amp),
        '=' => Some(Tok::Eq),
        '.' => Some(Tok::Dot),
        ':' => Some(Tok::Colon),
        ',' => Some(Tok::Comma),
        '(' => Some(Tok::LParen),
        ')' => Some(Tok::RParen),
        '[' => Some(Tok::LBracket),
        ']' => Some(Tok::RBracket),
        _ => None,
    }
}

fn word_tok(w: &Vec<char>) -> (t: Tok)
    ensures
        t@ == word_token(w@),
{
    proof {
        reveal_strlit("true");
        reveal_strlit("false");
    }
    if w.len() == 4 && w[0] == 't' && w[1] == 'r' && w[2] == 'u' && w[3] == 'e' {
        assert(w@ == "true"@);
        Tok::True
    } else if w.len() == 5 && w[0] == 'f' && w[1] == 'a' && w[2] == 'l' && w[3] == 's' && w[4]
        == 'e' {
        assert(w@ == "false"@);
        Tok::False
    } else {
        assert(w@ != "true"@) by {
            if w@ == "true"@ {
                assert(w@[0] == 't' && w@[1] == 'r' && w@[2] == 'u' && w@[3] == 'e');
            }
        }
        assert(w@ != "false"@) by {
            if w@ == "false"@ {
                assert(w@[0] == 'f' && w@[1] == 'a' && w@[2] == 'l' && w@[3] == 's' && w@[4]
                    == 'e');
            }
        }
        Tok::Ident(string_of(w.as_slice()))
    }
}

/// Decodes the body of a string literal starting at `i` (just after the
/// opening quote).
fn scan_string(s: &Vec<char>, i: usize) -> (r: Option<(Vec<char>, usize)>)
    requires
        i <= s@.len(),
    ensures
        match r {
            Some((b, j)) => string_body(s@, i as nat) == Some((b@, j as nat)),
            None => string_body(s@, i as nat) is None,
        },
{
    let mut body: Vec<char> = Vec::new();
    let mut k = i;
    while k < s.len()
        invariant
            i <= k <= s@.len(),
            string_body(s@, i as nat) == prefix_body(body@, string_body(s@, k as nat)),
        decreases s.len() - k,
    {
        let c = s[k];
        if c == '"' {
            assert(string_body(s@, k as nat) == Some((Seq::<char>::empty(), (k + 1) as nat)));
            assert(body@ + Seq::<char>::empty() == body@);
            return Some((body, k + 1));
        } else if c == '\n' {
            return None;
        } else if c == '\\' && k + 1 < s.len() && s[k + 1] == '"' {
            let ghost b0 = body@;
            body.push('"');
            proof {
                match string_body(s@, (k + 2) as nat) {
                    Some((b, j)) => {
                        assert(b0 + (seq!['"'] + b) == b0.push('"') + b);
                    },
                    None => {},
                }
            }
            k = k + 2;
        } else {
            let ghost b0 = body@;
            body.push(c);
            proof {
                match string_body(s@, (k + 1) as nat) {
                    Some((b, j)) => {
                        assert(b0 + (seq![c] + b) == b0.push(c) + b);
                    },
                    None => {},
                }
            }
            k = k + 1;
        }
    }
    None
}

fn error_with(message: String, line: usize) -> (e: Error)
    ensures
        e@ == (ErrorModel { message: message@, line: Some(line as nat) }),
{
    Error::new(message, Some(line))
}

/// Tokenizes a character sequence (see [`lex_spec`]).
pub fn lex_chars(s: &Vec<char>) -> (r: Result<Vec<Token>, Error>)
    requires
        s@.len() < usize::MAX,
    ensures
        match r {
            Ok(toks) => lex_spec(s@) == Ok::<Seq<TokenModel>, ErrorModel>(tokens_view(toks@)),
            Err(e) => lex_spec(s@) == Err::<Seq<TokenModel>, ErrorModel>(e@),
        },
{
    let mut toks: Vec<Token> = Vec::new();
    let mut i: usize = 0;
    let mut line: usize = 1;
    assert(tokens_view(toks@) == Seq::<TokenModel>::empty());
    assert(lex_spec(s@) == append_tokens(tokens_view(toks@), lex_from(s@, 0, 1)));
    while i < s.len()
        invariant
            i <= s@.len() < usize::MAX,
            1 <= line <= i + 1,
            lex_spec(s@) == append_tokens(tokens_view(toks@), lex_from(s@, i as nat, line as nat)),
        decreases s.len() - i,
    {
        let c = s[i];
        let ghost old_toks = tokens_view(toks@);
        if c == ' ' || c == '\t' || c == '\r' {
            i = i + 1;
        } else if c == '\n' {
            let t = Token { tok: Tok::Newline, line };
            toks.push(t);
            proof {
                assert(tokens_view(toks@) == old_toks.push(t@));
                match lex_from(s@, (i + 1) as nat, (line + 1) as nat) {
                    Ok(rest) => {
                        assert(old_toks + (seq![t@] + rest) == old_toks.push(t@) + rest);
                    },
                    Err(_) => {},
                }
            }
            line = line + 1;
            i = i + 1;
        } else if c == '#' {
            let ghost start = (i + 1) as nat;
            proof {
                lemma_line_end_bounds(s@, start);
            }
            i = i + 1;
            while i < s.len() && s[i] != '\n'
                invariant
                    start <= i <= s@.len(),
                    line_end(s@, i as nat) == line_end(s@, start),
                decreases s.len() - i,
            {
                i = i + 1;
            }
            assert(line_end(s@, i as nat) == i as nat);
        } else if c == '"' {
            match scan_string(s, i + 1) {
                None => {
                    let message = String::from_str("unterminated string literal");
                    return Err(error_with(message, line));
                },
                Some((body, j)) => {
                    proof {
                        lemma_string_body_advances(s@, (i + 1) as nat);
                    }
                    let t = Token { tok: Tok::Str(string_of(body.as_slice())), line };
                    toks.push(t);
                    proof {
                        assert(tokens_view(toks@) == old_toks.push(t@));
                        match lex_from(s@, j as nat, line as nat) {
                            Ok(rest) => {
                                assert(old_toks + (seq![t@] + rest) == old_toks.push(t@) + rest);
                            },
                            Err(_) => {},
                        }
                    }
                    i = j;
                },
            }
        } else if '0' <= c && c <= '9' {
            proof {
                lemma_number_end_bounds(s@, i as nat);
            }
            let mut j = i;
            let mut dots: usize = 0;
            let mut lexeme: Vec<char> = Vec::new();
            while j < s.len() && (('0' <= s[j] && s[j] <= '9') || s[j] == '.')
                invariant
                    i <= j <= s@.len(),
                    number_end(s@, j as nat) == number_end(s@, i as nat),
                    lexeme@ == s@.subrange(i as int, j as int),
                    dots as nat == count_dots(lexeme@),
                    dots <= j - i,
                decreases s.len() - j,
            {
                let d = s[j];
                let ghost l0 = lexeme@;
                lexeme.push(d);
                assert(lexeme@.drop_last() == l0);
                if d == '.' {
                    dots = dots + 1;
                }
                j = j + 1;
                assert(lexeme@ == s@.subrange(i as int, j as int));
            }
            assert(number_end(s@, j as nat) == j as nat);
            if dots <= 1 {
                let t = Token { tok: Tok::Num(string_of(lexeme.as_slice())), line };
                toks.push(t);
                proof {
                    assert(tokens_view(toks@) == old_toks.push(t@));
                    match lex_from(s@, j as nat, line as nat) {
                        Ok(rest) => {
                            assert(old_toks + (seq![t@] + rest) == old_toks.push(t@) + rest);
                        },
                        Err(_) => {},
                    }
                }
                i = j;
            } else {
                let mut message = String::from_str("invalid number `");
                let text = string_of(lexeme.as_slice());
                message.append(text.as_str());
                message.append("`");
                return Err(error_with(message, line));
            }
        } else if is_alphabetic(c) || c == '_' {
            proof {
                lemma_ident_end_bounds(s@, (i + 1) as nat);
            }
            let mut j = i + 1;
            let mut word: Vec<char> = Vec::new();
            word.push(c);
            assert(word@ == s@.subrange(i as int, j as int));
            while j < s.len() && (is_alphanumeric(s[j]) || s[j] == '_')
                invariant
                    i < j <= s@.len(),
                    ident_end(s@, j as nat) == ident_end(s@, (i + 1) as nat),
                    word@ == s@.subrange(i as int, j as int),
                decreases s.len() - j,
            {
                word.push(s[j]);
                j = j + 1;
                assert(word@ == s@.subrange(i as int, j as int));
            }
            assert(ident_end(s@, j as nat) == j as nat);
            let t = Token { tok: word_tok(&word), line };
            toks.push(t);
            proof {
                assert(tokens_view(toks@) == old_toks.push(t@));
                match lex_from(s@, j as nat, line as nat) {
                    Ok(rest) => {
                        assert(old_toks + (seq![t@] + rest) == old_toks.push(t@) + rest);
                    },
                    Err(_) => {},
                }
            }
            i = j;
        } else {
            match punct_tok(c) {
                Some(tok) => {
                    let t = Token { tok, line };
                    toks.push(t);
                    proof {
                        assert(tokens_view(toks@) == old_toks.push(t@));
                        match lex_from(s@, (i + 1) as nat, line as nat) {
                            Ok(rest) => {
                                assert(old_toks + (seq![t@] + rest) == old_toks.push(t@) + rest);
                            },
                            Err(_) => {},
                        }
                    }
                    i = i + 1;
                },
                None => {
                    let mut message = String::from_str("unexpected character `");
                    let one = vec![c];
                    let text = string_of(one.as_slice());
                    message.append(text.as_str());
                    message.append("`");
                    assert(one@ == seq![c]);
                    return Err(error_with(message, line));
                },
            }
        }
    }
    let t = Token { tok: Tok::Eof, line };
    let ghost old_toks = tokens_view(toks@);
    toks.push(t);
    assert(tokens_view(toks@) == old_toks.push(t@));
    assert(lex_from(s@, i as nat, line as nat) == Ok::<Seq<TokenModel>, ErrorModel>(seq![t@]));
    assert(old_toks + seq![t@] == old_toks.push(t@));
    Ok(toks)
}

/// Tokenizes `src` (see [`lex_spec`]).
pub fn lex(src: &str) -> (r: Result<Vec<Token>, Error>)
    requires
        src@.len() < usize::MAX,
    ensures
        match r {
            Ok(toks) => lex_spec(src@) == Ok::<Seq<TokenModel>, ErrorModel>(tokens_view(toks@)),
            Err(e) => lex_spec(src@) == Err::<Seq<TokenModel>, ErrorModel>(e@),
        },
{
    let s = chars_of(src);
    lex_chars(&s)
}

} // verus!

verus! {

/// A successful token stream ends with `Eof`.
pub proof fn lemma_lex_from_ends_with_eof(s: Seq<char>, i: nat, line: nat)
    ensures
        lex_from(s, i, line) matches Ok(toks) ==> toks.len() >= 1 && toks[toks.len() - 1].tok is Eof,
    decreases s.len() - i,
{
    if i < s.len() {
        let c = s[i as int];
        if c == ' ' || c == '\t' || c == '\r' {
            lemma_lex_from_ends_with_eof(s, i + 1, line);
        } else if c == '\n' {
            lemma_lex_from_ends_with_eof(s, i + 1, line + 1);
        } else if c == '#' {
            lemma_line_end_bounds(s, i + 1);
            lemma_lex_from_ends_with_eof(s, line_end(s, i + 1), line);
        } else if c == '"' {
            lemma_string_body_advances(s, i + 1);
            match string_body(s, i + 1) {
                Some((_, j)) => lemma_lex_from_ends_with_eof(s, j, line),
                None => {},
            }
        } else if is_digit(c) {
            lemma_number_end_bounds(s, i);
            lemma_lex_from_ends_with_eof(s, number_end(s, i), line);
        } else if is_ident_start(c) {
            lemma_ident_end_bounds(s, i + 1);
            lemma_lex_from_ends_with_eof(s, ident_end(s, i + 1), line);
        } else {
            lemma_lex_from_ends_with_eof(s, i + 1, line);
        }
    }
}

} // verus!
