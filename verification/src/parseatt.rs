//! The attribute language: `struct Name { field: Type, .. };`, `use path;`
//! and `use path as alias;`. The text is cut into tokens in one scan, each
//! statement ends with `;`, and one malformed statement rejects the whole text.

use vstd::prelude::*;
use crate::lowering::Structure;
use crate::syntax::Path;
use crate::tables::{Keyed, Named};
use crate::text::is_word;

verus! {

#[derive(Clone, Copy, Debug, PartialEq, Eq, Structural)]
pub enum Keyword {
    Struct,
    Use,
    As,
}

#[derive(Debug, PartialEq, Eq)]
pub enum Token {
    Ident(String),
    Keyword(Keyword),
    AngleOpen,
    AngleClose,
    CurlyOpen,
    CurlyClose,
    Semicolon,
    Comma,
    Colon,
    Plus,
    Unsupported(char),
}

/// A token as plain text.
pub enum Lexeme {
    Ident(Seq<char>),
    Keyword(Keyword),
    AngleOpen,
    AngleClose,
    CurlyOpen,
    CurlyClose,
    Semicolon,
    Comma,
    Colon,
    Plus,
    Unsupported(char),
}

/// Why an attribute text is rejected.
#[derive(Clone, Copy, Debug, PartialEq, Eq, Structural)]
pub enum AttrError {
    /// A statement starts with `as`.
    AsAtStart,
    /// A statement starts with anything but `struct` or `use`.
    BadStart,
    /// The statement ends where a token is needed.
    UnexpectedEnd,
    /// `struct` is not followed by a name.
    NotAnIdent,
    /// The fields do not start with `{`.
    NeedCurlyOpen,
    /// A field is not `name: Type`.
    BadInput,
    /// `as` stands where no path came before it.
    AsWithoutPath,
    /// A token that cannot be part of a path.
    UnsupportedInPath,
    /// The text of a path is not a path.
    InvalidPath,
}

/// What one statement declares.
#[derive(Debug, PartialEq, Eq)]
pub enum Declaration {
    Structure { name: String, fields: Structure },
    Import { path: Path },
    Alias { path: Path, alias: Path },
}

/// A declaration as plain text.
pub enum Item {
    Structure { name: Seq<char>, fields: Seq<(Seq<char>, Seq<char>)> },
    Import { path: (bool, Seq<Seq<char>>) },
    Alias { path: (bool, Seq<Seq<char>>), alias: (bool, Seq<Seq<char>>) },
}

/// The tables that an attribute text fills.
#[derive(Debug, PartialEq, Eq)]
pub struct ParseAttributes {
    /// The record types, by name.
    pub structures: Vec<Named<Structure>>,
    /// What `use path as alias;` declares, by the alias.
    pub replace_functions: Vec<Keyed<Path>>,
    /// What `use path;` declares, by the path.
    pub normal_functions: Vec<Keyed<Path>>,
}

/// Whether the character has the Unicode property `White_Space`: a tab, a
/// line feed, a vertical tab, a form feed, a carriage return, a blank, the
/// next-line control, the no-break blank, the Ogham space mark, the blanks
/// from the en quad to the hair space, the line and the paragraph separator,
/// the narrow no-break blank, the medium mathematical blank, or the
/// ideographic blank.
pub open spec fn white_space(c: char) -> bool {
    let n: u32 = c as u32;
    ||| 0x9 <= n <= 0xD
    ||| n == 0x20
    ||| n == 0x85
    ||| n == 0xA0
    ||| n == 0x1680
    ||| 0x2000 <= n <= 0x200A
    ||| n == 0x2028
    ||| n == 0x2029
    ||| n == 0x202F
    ||| n == 0x205F
    ||| n == 0x3000
}

/// A blank, a tab and a line break are white space; the letters, the
/// digits and the punctuation of ASCII are not.
pub proof fn law_printable_characters_are_no_white_space(c: char)
    ensures
        white_space(' '),
        white_space('\t'),
        white_space('\n'),
        0x21 <= c as u32 <= 0x7E ==> !white_space(c),
{
}

/// `char::is_whitespace` tells whether the character has the Unicode
/// property `White_Space`.
pub assume_specification[ char::is_whitespace ](c: char) -> (r: bool)
    ensures
        r == white_space(c),
;

/// The path that `syn` reads in a text that holds no `<`: whether it
/// starts with `::`, and the identifiers of its segments in order; `None`
/// where the text is no path. Without a `<` no segment has generic arguments,
/// so this is all of the path.
pub uninterp spec fn parsed_path(text: Seq<char>) -> Option<(bool, Seq<Seq<char>>)>;

/// Calls `syn::parse_str::<syn::Path>` and hands out whether the path it
/// yields starts with `::`, and the identifier of each of its segments, in
/// order; `None` where it yields an error.
#[verifier::external_body]
fn parse_path(text: &str) -> (r: Option<Path>)
    requires
        !text@.contains('<'),
    ensures
        match r {
            Some(path) => parsed_path(text@) == Some(path.key()),
            None => parsed_path(text@) is None,
        },
{
    match syn::parse_str::<syn::Path>(text) {
        Ok(path) => Some(
            Path {
                global: path.leading_colon.is_some(),
                segments: path.segments.iter().map(|s| s.ident.to_string()).collect(),
            },
        ),
        Err(_) => None,
    }
}

/// The path that a text of the attribute language stands for: whether it
/// starts with `::`, and its identifiers. A text that holds a `<` is no
/// path here: generic arguments have no place in the paths of an attribute.
pub open spec fn read_path(text: Seq<char>) -> Option<(bool, Seq<Seq<char>>)> {
    if text.contains('<') {
        None
    } else {
        parsed_path(text)
    }
}

/// Reads the path that a text stands for.
pub fn read_path_exec(text: &str) -> (r: Option<Path>)
    ensures
        match r {
            Some(path) => read_path(text@) == Some(path.key()),
            None => read_path(text@) is None,
        },
{
    let n = text.unicode_len();
    let mut i: usize = 0;
    while i < n
        invariant
            i <= n,
            n == text@.len(),
            forall|k: int| 0 <= k < i ==> text@[k] != '<',
        decreases n - i,
    {
        if text.get_char(i) == '<' {
            assert(text@.contains('<'));
            return None;
        }
        i += 1;
    }
    parse_path(text)
}

impl View for Token {
    type V = Lexeme;

    open spec fn view(&self) -> Lexeme {
        match self {
            Token::Ident(s) => Lexeme::Ident(s@),
            Token::Keyword(k) => Lexeme::Keyword(*k),
            Token::AngleOpen => Lexeme::AngleOpen,
            Token::AngleClose => Lexeme::AngleClose,
            Token::CurlyOpen => Lexeme::CurlyOpen,
            Token::CurlyClose => Lexeme::CurlyClose,
            Token::Semicolon => Lexeme::Semicolon,
            Token::Comma => Lexeme::Comma,
            Token::Colon => Lexeme::Colon,
            Token::Plus => Lexeme::Plus,
            Token::Unsupported(c) => Lexeme::Unsupported(*c),
        }
    }
}

/// The token that a punctuation character stands for.
pub open spec fn lexeme_of_char(c: char) -> Lexeme {
    if c == '>' {
        Lexeme::AngleClose
    } else if c == '<' {
        Lexeme::AngleOpen
    } else if c == '{' {
        Lexeme::CurlyOpen
    } else if c == '}' {
        Lexeme::CurlyClose
    } else if c == ':' {
        Lexeme::Colon
    } else if c == ',' {
        Lexeme::Comma
    } else if c == ';' {
        Lexeme::Semicolon
    } else if c == '+' {
        Lexeme::Plus
    } else {
        Lexeme::Unsupported(c)
    }
}

/// The token that a word stands for: a keyword, or else an identifier.
pub open spec fn lexeme_of_word(word: Seq<char>) -> Lexeme {
    if word == "struct"@ {
        Lexeme::Keyword(Keyword::Struct)
    } else if word == "use"@ {
        Lexeme::Keyword(Keyword::Use)
    } else if word == "as"@ {
        Lexeme::Keyword(Keyword::As)
    } else {
        Lexeme::Ident(word)
    }
}

/// The characters that are tokens of their own.
pub open spec fn is_punctuation(c: char) -> bool {
    c == '{' || c == '}' || c == ':' || c == ',' || c == ';' || c == '+' || c == '<' || c == '>'
}

impl Token {
    pub fn from_char(c: char) -> (r: Token)
        ensures
            r@ == lexeme_of_char(c),
    {
        if c == '>' {
            Token::AngleClose
        } else if c == '<' {
            Token::AngleOpen
        } else if c == '{' {
            Token::CurlyOpen
        } else if c == '}' {
            Token::CurlyClose
        } else if c == ':' {
            Token::Colon
        } else if c == ',' {
            Token::Comma
        } else if c == ';' {
            Token::Semicolon
        } else if c == '+' {
            Token::Plus
        } else {
            Token::Unsupported(c)
        }
    }

    pub fn from_string(s: String) -> (r: Token)
        ensures
            r@ == lexeme_of_word(s@),
    {
        if is_word(&s, "struct") {
            Token::Keyword(Keyword::Struct)
        } else if is_word(&s, "use") {
            Token::Keyword(Keyword::Use)
        } else if is_word(&s, "as") {
            Token::Keyword(Keyword::As)
        } else {
            Token::Ident(s)
        }
    }
}

/// What the scan has gathered: the word it is in, the tokens of the
/// statement it is in, and the statements that are complete.
pub struct Scan {
    pub current: Seq<char>,
    pub tokens: Seq<Lexeme>,
    pub expressions: Seq<Seq<Lexeme>>,
}

/// The tokens with the word that is being read added, where there is one.
pub open spec fn flushed(scan: Scan) -> Seq<Lexeme> {
    if scan.current.len() == 0 {
        scan.tokens
    } else {
        scan.tokens.push(lexeme_of_word(scan.current))
    }
}

/// The scan after one more character.
pub open spec fn scan_step(scan: Scan, c: char) -> Scan {
    if white_space(c) {
        Scan { current: Seq::empty(), tokens: flushed(scan), expressions: scan.expressions }
    } else if c == ';' {
        Scan {
            current: Seq::empty(),
            tokens: Seq::empty(),
            expressions: scan.expressions.push(flushed(scan).push(Lexeme::Semicolon)),
        }
    } else if is_punctuation(c) {
        Scan {
            current: Seq::empty(),
            tokens: flushed(scan).push(lexeme_of_char(c)),
            expressions: scan.expressions,
        }
    } else {
        Scan { current: scan.current.push(c), tokens: scan.tokens, expressions: scan.expressions }
    }
}

/// The scan after the first `n` characters of the text.
pub open spec fn scan(code: Seq<char>, n: nat) -> Scan
    decreases n,
{
    if n == 0 {
        Scan { current: Seq::empty(), tokens: Seq::empty(), expressions: Seq::empty() }
    } else {
        scan_step(scan(code, (n - 1) as nat), code[n - 1])
    }
}

/// The statements of a text: what ends with `;`. What follows the last `;`
/// is left out.
pub open spec fn statements(code: Seq<char>) -> Seq<Seq<Lexeme>> {
    scan(code, code.len()).expressions
}

/// The tokens as plain text.
pub open spec fn lexemes(tokens: Seq<Token>) -> Seq<Lexeme> {
    tokens.map_values(|t: Token| t@)
}

/// The statements as plain text.
pub open spec fn all_lexemes(expressions: Seq<Vec<Token>>) -> Seq<Seq<Lexeme>> {
    expressions.map_values(|e: Vec<Token>| lexemes(e@))
}

/// Cuts the text into statements of tokens.
pub fn tokenize(code: &str) -> (r: Vec<Vec<Token>>)
    ensures
        all_lexemes(r@) == statements(code@),
{
    let mut expressions: Vec<Vec<Token>> = Vec::new();
    let mut tokens: Vec<Token> = Vec::new();
    let mut current = String::new();
    let mut filled = false;
    let n = code.unicode_len();
    let mut i: usize = 0;
    assert(all_lexemes(expressions@) =~= Seq::<Seq<Lexeme>>::empty());
    assert(lexemes(tokens@) =~= Seq::<Lexeme>::empty());
    while i < n
        invariant
            i <= n,
            n == code@.len(),
            filled == (current@.len() > 0),
            scan(code@, i as nat) == (Scan {
                current: current@,
                tokens: lexemes(tokens@),
                expressions: all_lexemes(expressions@),
            }),
        decreases n - i,
    {
        let c = code.get_char(i);
        let ghost before = scan(code@, i as nat);
        let ghost old_tokens = tokens@;
        let ghost old_expressions = expressions@;
        assert(scan(code@, (i + 1) as nat) == scan_step(before, c));
        if c.is_whitespace() {
            if filled {
                tokens.push(Token::from_string(current));
                assert(lexemes(tokens@) =~= lexemes(old_tokens).push(lexeme_of_word(before.current)));
                current = String::new();
                filled = false;
            }
        } else if c == ';' {
            if filled {
                tokens.push(Token::from_string(current));
                assert(lexemes(tokens@) =~= lexemes(old_tokens).push(lexeme_of_word(before.current)));
            }
            let ghost mid = tokens@;
            tokens.push(Token::from_char(c));
            assert(lexemes(tokens@) =~= lexemes(mid).push(Lexeme::Semicolon));
            let ghost done = tokens@;
            expressions.push(tokens);
            assert(all_lexemes(expressions@) =~= all_lexemes(old_expressions).push(lexemes(done)));
            tokens = Vec::new();
            assert(lexemes(tokens@) =~= Seq::<Lexeme>::empty());
            current = String::new();
            filled = false;
        } else if c == ':' || c == ',' || c == '+' || c == '{' || c == '}' || c == '<' || c == '>' {
            if filled {
                tokens.push(Token::from_string(current));
                assert(lexemes(tokens@) =~= lexemes(old_tokens).push(lexeme_of_word(before.current)));
            }
            let ghost mid = tokens@;
            tokens.push(Token::from_char(c));
            assert(lexemes(tokens@) =~= lexemes(mid).push(lexeme_of_char(c)));
            current = String::new();
            filled = false;
        } else {
            current.push(c);
            filled = true;
        }
        i += 1;
    }
    expressions
}

/// The fields of a record type as plain text.
pub open spec fn fields_model(fields: Seq<Named<String>>) -> Seq<(Seq<char>, Seq<char>)> {
    fields.map_values(|f: Named<String>| (f.name@, f.value@))
}

/// The record types as plain text.
pub open spec fn structures_model(structures: Seq<Named<Structure>>) -> Seq<
    (Seq<char>, Seq<(Seq<char>, Seq<char>)>),
> {
    structures.map_values(|s: Named<Structure>| (s.name@, fields_model(s.value@)))
}

/// A table of paths as plain text.
pub open spec fn paths_model(paths: Seq<Keyed<Path>>) -> Seq<
    ((bool, Seq<Seq<char>>), (bool, Seq<Seq<char>>)),
> {
    paths.map_values(|p: Keyed<Path>| (p.path.key(), p.value.key()))
}

impl View for Declaration {
    type V = Item;

    open spec fn view(&self) -> Item {
        match self {
            Declaration::Structure { name, fields } => Item::Structure {
                name: name@,
                fields: fields_model(fields@),
            },
            Declaration::Import { path } => Item::Import { path: path.key() },
            Declaration::Alias { path, alias } => Item::Alias {
                path: path.key(),
                alias: alias.key(),
            },
        }
    }
}

/// The place of the token that follows the first `>` at or after `i`.
pub open spec fn skip_generics(tokens: Seq<Lexeme>, i: int) -> Option<int>
    decreases tokens.len() - i,
{
    if i < 0 || i >= tokens.len() {
        None
    } else if tokens[i] is AngleClose {
        Some(i + 1)
    } else {
        skip_generics(tokens, i + 1)
    }
}

/// The fields of a record type from the token at `i` on: `name: Type`, then
/// `}` to end the fields or any other token to go on.
pub open spec fn parse_fields(
    tokens: Seq<Lexeme>,
    i: int,
    fields: Seq<(Seq<char>, Seq<char>)>,
) -> Result<Seq<(Seq<char>, Seq<char>)>, AttrError>
    decreases tokens.len() - i,
{
    if i < 0 || i + 3 >= tokens.len() {
        Err(AttrError::UnexpectedEnd)
    } else {
        match (tokens[i], tokens[i + 1], tokens[i + 2]) {
            (Lexeme::Ident(name), Lexeme::Colon, Lexeme::Ident(ty)) => if tokens[i + 3]
                is CurlyClose {
                Ok(fields.push((name, ty)))
            } else {
                parse_fields(tokens, i + 4, fields.push((name, ty)))
            },
            _ => Err(AttrError::BadInput),
        }
    }
}

/// The place of the `{` of a record type, whose name is the token at 1.
pub open spec fn fields_start(tokens: Seq<Lexeme>) -> Result<int, AttrError> {
    if tokens.len() < 3 {
        Err(AttrError::UnexpectedEnd)
    } else if tokens[2] is AngleOpen {
        match skip_generics(tokens, 3) {
            None => Err(AttrError::UnexpectedEnd),
            Some(j) => if j >= tokens.len() {
                Err(AttrError::UnexpectedEnd)
            } else {
                Ok(j)
            },
        }
    } else {
        Ok(2)
    }
}

/// `struct Name { field: Type, .. }`, with anything between `<` and `>`
/// after the name passed over.
pub open spec fn interpret_struct(tokens: Seq<Lexeme>) -> Result<Item, AttrError> {
    if tokens.len() < 2 {
        Err(AttrError::UnexpectedEnd)
    } else {
        match tokens[1] {
            Lexeme::Ident(name) => match fields_start(tokens) {
                Err(e) => Err(e),
                Ok(open) => if !(tokens[open] is CurlyOpen) {
                    Err(AttrError::NeedCurlyOpen)
                } else {
                    match parse_fields(tokens, open + 1, Seq::empty()) {
                        Err(e) => Err(e),
                        Ok(fields) => Ok(Item::Structure { name, fields }),
                    }
                },
            },
            _ => Err(AttrError::NotAnIdent),
        }
    }
}

/// What a `use` statement declares once its `;` is reached.
pub open spec fn finish_use(path: Seq<char>, replacing: Seq<char>, renamed: bool) -> Result<
    Item,
    AttrError,
> {
    match read_path(path) {
        None => Err(AttrError::InvalidPath),
        Some(p) => if renamed {
            match read_path(replacing) {
                None => Err(AttrError::InvalidPath),
                Some(alias) => Ok(Item::Alias { path: p, alias }),
            }
        } else {
            Ok(Item::Import { path: p })
        },
    }
}

/// `use path;` or `use path as alias;` from the token at `i` on. Identifiers
/// and colons make up the path before `as` and the alias after it.
pub open spec fn parse_use(
    tokens: Seq<Lexeme>,
    i: int,
    path: Seq<char>,
    replacing: Seq<char>,
    renamed: bool,
) -> Result<Item, AttrError>
    decreases tokens.len() - i,
{
    if i < 0 || i >= tokens.len() {
        Err(AttrError::UnexpectedEnd)
    } else {
        match tokens[i] {
            Lexeme::Semicolon => finish_use(path, replacing, renamed),
            Lexeme::Keyword(Keyword::As) => if path.len() == 0 {
                Err(AttrError::AsWithoutPath)
            } else {
                parse_use(tokens, i + 1, path, replacing, true)
            },
            Lexeme::Colon => if renamed {
                parse_use(tokens, i + 1, path, replacing + ":"@, renamed)
            } else {
                parse_use(tokens, i + 1, path + ":"@, replacing, renamed)
            },
            Lexeme::Ident(id) => if renamed {
                parse_use(tokens, i + 1, path, replacing + id, renamed)
            } else {
                parse_use(tokens, i + 1, path + id, replacing, renamed)
            },
            _ => Err(AttrError::UnsupportedInPath),
        }
    }
}

/// What one statement declares.
pub open spec fn interpret(tokens: Seq<Lexeme>) -> Result<Item, AttrError> {
    if tokens.len() == 0 {
        Err(AttrError::UnexpectedEnd)
    } else {
        match tokens[0] {
            Lexeme::Keyword(Keyword::Struct) => interpret_struct(tokens),
            Lexeme::Keyword(Keyword::Use) => parse_use(
                tokens,
                1,
                Seq::empty(),
                Seq::empty(),
                false,
            ),
            Lexeme::Keyword(Keyword::As) => Err(AttrError::AsAtStart),
            _ => Err(AttrError::BadStart),
        }
    }
}

/// What the first `n` statements declare; the first that is malformed
/// rejects them all.
pub open spec fn interpret_prefix(expressions: Seq<Seq<Lexeme>>, n: nat) -> Result<
    Seq<Item>,
    AttrError,
>
    decreases n,
{
    if n == 0 {
        Ok(Seq::empty())
    } else {
        match interpret_prefix(expressions, (n - 1) as nat) {
            Err(e) => Err(e),
            Ok(items) => match interpret(expressions[n - 1]) {
                Err(e) => Err(e),
                Ok(item) => Ok(items.push(item)),
            },
        }
    }
}

/// What an attribute text declares.
pub open spec fn declarations(code: Seq<char>) -> Result<Seq<Item>, AttrError> {
    interpret_prefix(statements(code), statements(code).len())
}

/// The record types among the declarations, in order.
pub open spec fn declared_structures(items: Seq<Item>) -> Seq<
    (Seq<char>, Seq<(Seq<char>, Seq<char>)>),
>
    decreases items.len(),
{
    if items.len() == 0 {
        Seq::empty()
    } else {
        match items.last() {
            Item::Structure { name, fields } => declared_structures(items.drop_last()).push(
                (name, fields),
            ),
            _ => declared_structures(items.drop_last()),
        }
    }
}

/// The aliases among the declarations, in order: each alias with the path
/// it stands for.
pub open spec fn declared_aliases(items: Seq<Item>) -> Seq<
    ((bool, Seq<Seq<char>>), (bool, Seq<Seq<char>>)),
>
    decreases items.len(),
{
    if items.len() == 0 {
        Seq::empty()
    } else {
        match items.last() {
            Item::Alias { path, alias } => declared_aliases(items.drop_last()).push((alias, path)),
            _ => declared_aliases(items.drop_last()),
        }
    }
}

/// The plain imports among the declarations, in order: each path stands for
/// itself.
pub open spec fn declared_imports(items: Seq<Item>) -> Seq<
    ((bool, Seq<Seq<char>>), (bool, Seq<Seq<char>>)),
>
    decreases items.len(),
{
    if items.len() == 0 {
        Seq::empty()
    } else {
        match items.last() {
            Item::Import { path } => declared_imports(items.drop_last()).push((path, path)),
            _ => declared_imports(items.drop_last()),
        }
    }
}

/// Finds the token that follows the first `>` at or after `i`.
pub fn skip_generics_exec(tokens: &Vec<Token>, i: usize) -> (r: Option<usize>)
    ensures
        match r {
            Some(j) => skip_generics(lexemes(tokens@), i as int) == Some(j as int) && j
                <= tokens.len(),
            None => skip_generics(lexemes(tokens@), i as int) is None,
        },
    decreases tokens.len() - i,
{
    if i >= tokens.len() {
        None
    } else {
        match &tokens[i] {
            Token::AngleClose => Some(i + 1),
            _ => skip_generics_exec(tokens, i + 1),
        }
    }
}

/// Reads the fields of a record type from the token at `i` on.
pub fn parse_fields_exec(tokens: &Vec<Token>, i: usize, fields: Structure) -> (r: Result<
    Structure,
    AttrError,
>)
    ensures
        match parse_fields(lexemes(tokens@), i as int, fields_model(fields@)) {
            Ok(all) => r matches Ok(f) && fields_model(f@) == all,
            Err(e) => r == Err::<Structure, AttrError>(e),
        },
    decreases tokens.len() - i,
{
    if tokens.len() < 4 || i >= tokens.len() - 3 {
        return Err(AttrError::UnexpectedEnd);
    }
    match (&tokens[i], &tokens[i + 1], &tokens[i + 2]) {
        (Token::Ident(name), Token::Colon, Token::Ident(ty)) => {
            let mut fields = fields;
            let ghost before = fields@;
            fields.push(Named { name: name.clone(), value: ty.clone() });
            assert(fields_model(fields@) =~= fields_model(before).push((name@, ty@)));
            match &tokens[i + 3] {
                Token::CurlyClose => Ok(fields),
                _ => parse_fields_exec(tokens, i + 4, fields),
            }
        },
        _ => Err(AttrError::BadInput),
    }
}

/// Reads a record type.
pub fn interpret_struct_exec(tokens: &Vec<Token>) -> (r: Result<Declaration, AttrError>)
    ensures
        match interpret_struct(lexemes(tokens@)) {
            Ok(item) => r matches Ok(d) && d@ == item,
            Err(e) => r == Err::<Declaration, AttrError>(e),
        },
{
    if tokens.len() < 2 {
        return Err(AttrError::UnexpectedEnd);
    }
    match &tokens[1] {
        Token::Ident(name) => {
            if tokens.len() < 3 {
                return Err(AttrError::UnexpectedEnd);
            }
            let open = match &tokens[2] {
                Token::AngleOpen => match skip_generics_exec(tokens, 3) {
                    None => {
                        return Err(AttrError::UnexpectedEnd);
                    },
                    Some(j) => {
                        if j >= tokens.len() {
                            return Err(AttrError::UnexpectedEnd);
                        }
                        j
                    },
                },
                _ => 2,
            };
            match &tokens[open] {
                Token::CurlyOpen => {},
                _ => {
                    return Err(AttrError::NeedCurlyOpen);
                },
            }
            let empty: Structure = Vec::new();
            assert(fields_model(empty@) =~= Seq::<(Seq<char>, Seq<char>)>::empty());
            let fields = parse_fields_exec(tokens, open + 1, empty)?;
            Ok(Declaration::Structure { name: name.clone(), fields })
        },
        _ => Err(AttrError::NotAnIdent),
    }
}

/// Ends a `use` statement: the texts that were gathered must be paths.
pub fn finish_use_exec(path: String, replacing: String, renamed: bool) -> (r: Result<
    Declaration,
    AttrError,
>)
    ensures
        match finish_use(path@, replacing@, renamed) {
            Ok(item) => r matches Ok(d) && d@ == item,
            Err(e) => r == Err::<Declaration, AttrError>(e),
        },
{
    match read_path_exec(path.as_str()) {
        None => Err(AttrError::InvalidPath),
        Some(p) => {
            if renamed {
                match read_path_exec(replacing.as_str()) {
                    None => Err(AttrError::InvalidPath),
                    Some(alias) => Ok(Declaration::Alias { path: p, alias }),
                }
            } else {
                Ok(Declaration::Import { path: p })
            }
        },
    }
}

/// Reads a `use` statement from the token at `i` on.
pub fn parse_use_exec(
    tokens: &Vec<Token>,
    i: usize,
    path: String,
    replacing: String,
    renamed: bool,
) -> (r: Result<Declaration, AttrError>)
    ensures
        match parse_use(lexemes(tokens@), i as int, path@, replacing@, renamed) {
            Ok(item) => r matches Ok(d) && d@ == item,
            Err(e) => r == Err::<Declaration, AttrError>(e),
        },
    decreases tokens.len() - i,
{
    if i >= tokens.len() {
        return Err(AttrError::UnexpectedEnd);
    }
    match &tokens[i] {
        Token::Semicolon => finish_use_exec(path, replacing, renamed),
        Token::Keyword(Keyword::As) => {
            if path.as_str().unicode_len() == 0 {
                Err(AttrError::AsWithoutPath)
            } else {
                parse_use_exec(tokens, i + 1, path, replacing, true)
            }
        },
        Token::Colon => {
            if renamed {
                parse_use_exec(tokens, i + 1, path, replacing.concat(":"), renamed)
            } else {
                parse_use_exec(tokens, i + 1, path.concat(":"), replacing, renamed)
            }
        },
        Token::Ident(id) => {
            if renamed {
                parse_use_exec(tokens, i + 1, path, replacing.concat(id.as_str()), renamed)
            } else {
                parse_use_exec(tokens, i + 1, path.concat(id.as_str()), replacing, renamed)
            }
        },
        _ => Err(AttrError::UnsupportedInPath),
    }
}

/// Reads one statement.
pub fn interpret_exec(tokens: &Vec<Token>) -> (r: Result<Declaration, AttrError>)
    ensures
        match interpret(lexemes(tokens@)) {
            Ok(item) => r matches Ok(d) && d@ == item,
            Err(e) => r == Err::<Declaration, AttrError>(e),
        },
{
    if tokens.len() == 0 {
        return Err(AttrError::UnexpectedEnd);
    }
    match &tokens[0] {
        Token::Keyword(Keyword::Struct) => interpret_struct_exec(tokens),
        Token::Keyword(Keyword::Use) => parse_use_exec(
            tokens,
            1,
            String::new(),
            String::new(),
            false,
        ),
        Token::Keyword(Keyword::As) => Err(AttrError::AsAtStart),
        _ => Err(AttrError::BadStart),
    }
}

impl ParseAttributes {
    /// Empty tables.
    pub fn new() -> (r: ParseAttributes)
        ensures
            r.structures@.len() == 0,
            r.replace_functions@.len() == 0,
            r.normal_functions@.len() == 0,
    {
        ParseAttributes {
            structures: Vec::new(),
            replace_functions: Vec::new(),
            normal_functions: Vec::new(),
        }
    }

    /// Adds what the text declares to the tables. A text with a malformed
    /// statement is rejected as a whole and leaves the tables as they were.
    pub fn parse(&mut self, code: &str) -> (r: Result<(), AttrError>)
        ensures
            match declarations(code@) {
                Err(e) => r == Err::<(), AttrError>(e) && *final(self) == *old(self),
                Ok(items) => {
                    &&& r is Ok
                    &&& structures_model(final(self).structures@) == structures_model(
                        old(self).structures@,
                    ) + declared_structures(items)
                    &&& paths_model(final(self).replace_functions@) == paths_model(
                        old(self).replace_functions@,
                    ) + declared_aliases(items)
                    &&& paths_model(final(self).normal_functions@) == paths_model(
                        old(self).normal_functions@,
                    ) + declared_imports(items)
                },
            },
    {
        let expressions = tokenize(code);
        let mut structures: Vec<Named<Structure>> = Vec::new();
        let mut aliases: Vec<Keyed<Path>> = Vec::new();
        let mut imports: Vec<Keyed<Path>> = Vec::new();
        let ghost mut items: Seq<Item> = Seq::empty();
        let mut i: usize = 0;
        assert(structures_model(structures@) =~= declared_structures(items));
        assert(paths_model(aliases@) =~= declared_aliases(items));
        assert(paths_model(imports@) =~= declared_imports(items));
        while i < expressions.len()
            invariant
                i <= expressions.len(),
                all_lexemes(expressions@) == statements(code@),
                interpret_prefix(statements(code@), i as nat) == Ok::<Seq<Item>, AttrError>(items),
                structures_model(structures@) == declared_structures(items),
                paths_model(aliases@) == declared_aliases(items),
                paths_model(imports@) == declared_imports(items),
            decreases expressions.len() - i,
        {
            assert(all_lexemes(expressions@)[i as int] == lexemes(expressions@[i as int]@));
            let ghost before = items;
            let ghost old_structures = structures@;
            let ghost old_aliases = aliases@;
            let ghost old_imports = imports@;
            match interpret_exec(&expressions[i]) {
                Err(e) => {
                    proof {
                        lemma_prefix_error(statements(code@), (i + 1) as nat, statements(code@).len());
                    }
                    return Err(e);
                },
                Ok(declaration) => {
                    proof {
                        items = items.push(declaration@);
                        assert(items.drop_last() =~= before);
                    }
                    match declaration {
                        Declaration::Structure { name, fields } => {
                            structures.push(Named { name, value: fields });
                            assert(structures_model(structures@) =~= structures_model(
                                old_structures,
                            ).push((name@, fields_model(fields@))));
                        },
                        Declaration::Import { path } => {
                            let key = path.duplicate();
                            imports.push(Keyed { path: key, value: path });
                            assert(paths_model(imports@) =~= paths_model(old_imports).push(
                                (path.key(), path.key()),
                            ));
                        },
                        Declaration::Alias { path, alias } => {
                            aliases.push(Keyed { path: alias, value: path });
                            assert(paths_model(aliases@) =~= paths_model(old_aliases).push(
                                (alias.key(), path.key()),
                            ));
                        },
                    }
                },
            }
            i += 1;
        }
        let ghost old_s = self.structures@;
        let ghost old_a = self.replace_functions@;
        let ghost old_i = self.normal_functions@;
        let ghost new_s = structures@;
        let ghost new_a = aliases@;
        let ghost new_i = imports@;
        self.structures.append(&mut structures);
        self.replace_functions.append(&mut aliases);
        self.normal_functions.append(&mut imports);
        assert(structures_model(self.structures@) =~= structures_model(old_s) + structures_model(
            new_s,
        ));
        assert(paths_model(self.replace_functions@) =~= paths_model(old_a) + paths_model(new_a));
        assert(paths_model(self.normal_functions@) =~= paths_model(old_i) + paths_model(new_i));
        Ok(())
    }
}

/// Once a statement is malformed, so is every longer run of statements.
pub proof fn lemma_prefix_error(expressions: Seq<Seq<Lexeme>>, n: nat, m: nat)
    requires
        n <= m,
        interpret_prefix(expressions, n) is Err,
    ensures
        interpret_prefix(expressions, m) == interpret_prefix(expressions, n),
    decreases m,
{
    if n < m {
        lemma_prefix_error(expressions, n, (m - 1) as nat);
    }
}

} // verus!
