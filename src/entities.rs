use vstd::prelude::*;
use vstd::string::*;

use crate::enums::ArticleType;

use base64::Engine;

verus! {

/// The character of the decimal digit `d` (`0 <= d < 10`).
pub open spec fn digit_char(d: int) -> char {
    seq!['0', '1', '2', '3', '4', '5', '6', '7', '8', '9'][d]
}

/// The decimal digits of `n`, most significant first, without leading zeros.
pub open spec fn decimal_digits(n: nat) -> Seq<char>
    decreases n,
{
    if n < 10 {
        seq![digit_char(n as int)]
    } else {
        decimal_digits(n / 10).push(digit_char((n % 10) as int))
    }
}

/// How `n` is written in decimal, with a leading `-` when it is negative.
pub open spec fn decimal_of(n: int) -> Seq<char> {
    if n < 0 {
        seq!['-'] + decimal_digits((-n) as nat)
    } else {
        decimal_digits(n as nat)
    }
}

/// Appends the decimal digits of `n` to `s`.
fn append_digits(s: &mut String, n: u32)
    ensures
        final(s)@ == old(s)@ + decimal_digits(n as nat),
    decreases n,
{
    let ghost start = s@;
    if n >= 10 {
        append_digits(s, n / 10);
    }
    let digits = "0123456789";
    proof {
        reveal_strlit("0123456789");
    }
    let d = (n % 10) as usize;
    let digit = digits.substring_char(d, d + 1);
    assert(digit@ =~= seq![digit_char(d as int)]);
    s.append(digit);
    assert(s@ =~= start + decimal_digits(n as nat));
}

/// `n` written in decimal.
pub fn decimal_string(n: i32) -> (r: String)
    ensures
        r@ == decimal_of(n as int),
{
    let mut s = String::new();
    if n < 0 {
        s.append("-");
        proof {
            reveal_strlit("-");
        }
        let magnitude: i64 = -(n as i64);
        append_digits(&mut s, magnitude as u32);
    } else {
        append_digits(&mut s, n as u32);
    }
    assert(s@ =~= decimal_of(n as int));
    s
}

/// A row of the `articles` table.
pub struct ArticleEntity {
    pub id: i32,
    pub title: String,
    pub description: String,
    pub md_filename: String,
    pub photo_filename: String,
    pub article_type: i32,
}

/// The name of the markdown file of the article with identifier `id`.
pub open spec fn markdown_filename(id: i32) -> Seq<char> {
    decimal_of(id as int) + seq!['.', 'm', 'd']
}

/// The name of the photo file of the article with identifier `id`.
pub open spec fn photo_filename(id: i32) -> Seq<char> {
    decimal_of(id as int) + seq!['.', 'j', 'p', 'g']
}

impl ArticleEntity {
    /// The row of a freshly inserted article: its files are named after the
    /// identifier that the database gave it.
    pub fn from_insert(id: i32, title: String, description: String, article_type: i32) -> (r: Self)
        ensures
            r.id == id,
            r.title == title,
            r.description == description,
            r.md_filename@ == markdown_filename(id),
            r.photo_filename@ == photo_filename(id),
            r.article_type == article_type,
    {
        let mut md_filename = decimal_string(id);
        md_filename.append(".md");
        let mut photo_filename = decimal_string(id);
        photo_filename.append(".jpg");
        proof {
            reveal_strlit(".md");
            reveal_strlit(".jpg");
        }
        ArticleEntity { id, title, description, md_filename, photo_filename, article_type }
    }
}

/// The signed payload of a token: who it was issued to and until when it is
/// valid.
pub struct Claims {
    /// The principal the token was issued to (an email address).
    pub sub: String,
    /// Seconds since the Unix epoch after which the token is no longer valid.
    pub exp: u64,
}

/// What a set of claims says, as mathematical values.
pub struct ClaimsView {
    pub subject: Seq<char>,
    pub expires_at: u64,
}

impl View for Claims {
    type V = ClaimsView;

    open spec fn view(&self) -> ClaimsView {
        ClaimsView { subject: self.sub@, expires_at: self.exp }
    }
}

impl Claims {
    /// The principal the token was issued to.
    pub fn subject(&self) -> (r: &str)
        ensures
            r@ == self.sub@,
    {
        self.sub.as_str()
    }

    /// The instant, in seconds since the Unix epoch, at which the claims lapse.
    pub fn expires_at(&self) -> (r: u64)
        ensures
            r == self.exp,
    {
        self.exp
    }
}

/// A row of the `users` table.
pub struct User {
    pub id: i32,
    pub email: String,
    pub password_hash: String,
}

/// The body of a sign-in request.
pub struct LoginRequest {
    pub email: String,
    pub password: String,
}

/// The body of a sign-up request.
pub struct SignupRequest {
    pub email: String,
    pub password: String,
}

/// An article with its kind decoded.
pub struct Article {
    pub id: i32,
    pub title: String,
    pub description: String,
    pub md_filename: String,
    pub photo_filename: String,
    pub article_type: ArticleType,
}

impl Article {
    /// The article that a row describes; the row's kind must be a valid code.
    pub fn from_entity(entity: ArticleEntity) -> (r: Article)
        requires
            ArticleType::is_code(entity.article_type),
        ensures
            r.id == entity.id,
            r.title == entity.title,
            r.description == entity.description,
            r.md_filename == entity.md_filename,
            r.photo_filename == entity.photo_filename,
            r.article_type.spec_code() == entity.article_type,
    {
        Article {
            id: entity.id,
            title: entity.title,
            description: entity.description,
            md_filename: entity.md_filename,
            photo_filename: entity.photo_filename,
            article_type: ArticleType::from_code(entity.article_type),
        }
    }
}

/// The metadata of a new article, as sent with an upload.
pub struct ArticleCreateRequest {
    pub title: String,
    pub description: String,
    pub article_type: i32,
}

/// The standard base64 text (with padding) of `bytes`, as the base64 crate
/// writes it.
pub uninterp spec fn base64_of(bytes: Seq<u8>) -> Seq<char>;

/// Relies on base64's standard engine (`STANDARD.encode`): the base64 text of
/// `bytes`; no bytes give no text.
#[verifier::external_body]
fn base64_encode(bytes: &[u8]) -> (r: String)
    ensures
        r@ == base64_of(bytes@),
        bytes@.len() == 0 ==> r@.len() == 0,
{
    base64::engine::general_purpose::STANDARD.encode(bytes)
}

/// An article as served to readers: its row, the markdown text and the photo
/// as base64 text.
pub struct ArticleResponse {
    pub article: ArticleEntity,
    pub md_contents: String,
    pub photo_contents: String,
}

impl ArticleResponse {
    /// The response for `article` with its markdown text and the bytes of its
    /// photo.
    pub fn new(article: ArticleEntity, md_contents: String, photo: &[u8]) -> (r: ArticleResponse)
        ensures
            r.article == article,
            r.md_contents == md_contents,
            r.photo_contents@ == base64_of(photo@),
    {
        ArticleResponse { article, md_contents, photo_contents: base64_encode(photo) }
    }
}

} // verus!
