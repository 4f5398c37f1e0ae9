//! The style table: which terminal decoration each semantic role gets.

use vstd::prelude::*;
use vstd::string::StringExecFns;

verus! {

/// The escape sequence that ends every decoration.
pub open spec fn reset_seq() -> Seq<char> {
    "\x1b[m"@
}

/// The escape sequence for bold text.
pub open spec fn bold_seq() -> Seq<char> {
    "\x1b[1m"@
}

/// The escape sequence for underlined text.
pub open spec fn underline_seq() -> Seq<char> {
    "\x1b[4m"@
}

/// The escape sequence for a red foreground.
pub open spec fn red_seq() -> Seq<char> {
    "\x1b[38;5;1m"@
}

/// The escape sequence for a yellow foreground.
pub open spec fn yellow_seq() -> Seq<char> {
    "\x1b[38;5;3m"@
}

/// The escape sequence for a blue foreground.
pub open spec fn blue_seq() -> Seq<char> {
    "\x1b[38;5;4m"@
}

/// What `termion::style::Reset` displays as: the control sequence introducer
/// followed by `m`.
#[verifier::external_body]
fn reset_code() -> (r: String)
    ensures
        r@ == reset_seq(),
{
    format!("{}", termion::style::Reset)
}

/// What `termion::style::Bold` displays as: the control sequence introducer
/// followed by `1m`.
#[verifier::external_body]
fn bold_code() -> (r: String)
    ensures
        r@ == bold_seq(),
{
    format!("{}", termion::style::Bold)
}

/// What `termion::style::Underline` displays as: the control sequence
/// introducer followed by `4m`.
#[verifier::external_body]
fn underline_code() -> (r: String)
    ensures
        r@ == underline_seq(),
{
    format!("{}", termion::style::Underline)
}

/// What `termion::color::Fg` of `termion::color::Red` displays as: the
/// 256-colour foreground sequence for colour 1.
#[verifier::external_body]
fn red_code() -> (r: String)
    ensures
        r@ == red_seq(),
{
    format!("{}", termion::color::Fg(termion::color::Red))
}

/// What `termion::color::Fg` of `termion::color::Yellow` displays as: the
/// 256-colour foreground sequence for colour 3.
#[verifier::external_body]
fn yellow_code() -> (r: String)
    ensures
        r@ == yellow_seq(),
{
    format!("{}", termion::color::Fg(termion::color::Yellow))
}

/// What `termion::color::Fg` of `termion::color::Blue` displays as: the
/// 256-colour foreground sequence for colour 4.
#[verifier::external_body]
fn blue_code() -> (r: String)
    ensures
        r@ == blue_seq(),
{
    format!("{}", termion::color::Fg(termion::color::Blue))
}

/// The semantic roles that a piece of rendered text can have.
#[derive(Clone, Copy, Debug, PartialEq, Eq, Structural)]
pub enum Role {
    Author,
    Timestamp,
    Link,
    Meta,
    Hashtag,
}

/// `s` between a decoration and the reset sequence.
pub open spec fn decorated(color: Seq<char>, s: Seq<char>) -> Seq<char> {
    color + s + reset_seq()
}

/// The decoration of each role, as the escape sequence that switches it on.
#[derive(Debug)]
pub struct ColorConfig {
    pub color_user: String,
    pub color_time: String,
    pub color_url: String,
    pub color_meta: String,
    pub color_hash: String,
}

impl ColorConfig {
    /// The escape sequence that this table gives to `role`.
    pub open spec fn decoration(&self, role: Role) -> Seq<char> {
        match role {
            Role::Author => self.color_user@,
            Role::Timestamp => self.color_time@,
            Role::Link => self.color_url@,
            Role::Meta => self.color_meta@,
            Role::Hashtag => self.color_hash@,
        }
    }

    /// `s` decorated for `role`.
    pub open spec fn styled(&self, role: Role, s: Seq<char>) -> Seq<char> {
        decorated(self.decoration(role), s)
    }

    /// The default table: bold blue authors, yellow timestamps, underlined
    /// blue links, red meta text, yellow hashtags.
    pub open spec fn is_default(&self) -> bool {
        &&& self.color_user@ == bold_seq() + blue_seq()
        &&& self.color_time@ == yellow_seq()
        &&& self.color_url@ == underline_seq() + blue_seq()
        &&& self.color_meta@ == red_seq()
        &&& self.color_hash@ == yellow_seq()
    }

    /// Puts `s` between `color` and the reset sequence.
    pub fn colorize(color: &str, s: &str) -> (r: String)
        ensures
            r@ == decorated(color@, s@),
    {
        let reset = reset_code();
        let mut r = String::from_str(color);
        r.append(s);
        r.append(reset.as_str());
        r
    }

    /// Decorates `s` for the role `role`.
    pub fn decorate(&self, role: Role, s: &str) -> (r: String)
        ensures
            r@ == self.styled(role, s@),
    {
        match role {
            Role::Author => Self::colorize(self.color_user.as_str(), s),
            Role::Timestamp => Self::colorize(self.color_time.as_str(), s),
            Role::Link => Self::colorize(self.color_url.as_str(), s),
            Role::Meta => Self::colorize(self.color_meta.as_str(), s),
            Role::Hashtag => Self::colorize(self.color_hash.as_str(), s),
        }
    }

    /// Decorates an author's handle or a mention.
    pub fn user(&self, s: &str) -> (r: String)
        ensures
            r@ == self.styled(Role::Author, s@),
    {
        self.decorate(Role::Author, s)
    }

    /// Decorates a timestamp.
    pub fn time(&self, s: &str) -> (r: String)
        ensures
            r@ == self.styled(Role::Timestamp, s@),
    {
        self.decorate(Role::Timestamp, s)
    }

    /// Decorates a link.
    pub fn url(&self, s: &str) -> (r: String)
        ensures
            r@ == self.styled(Role::Link, s@),
    {
        self.decorate(Role::Link, s)
    }

    /// Decorates meta text: counts, glyphs and context markers.
    pub fn meta(&self, s: &str) -> (r: String)
        ensures
            r@ == self.styled(Role::Meta, s@),
    {
        self.decorate(Role::Meta, s)
    }

    /// Decorates a hashtag.
    pub fn hash(&self, s: &str) -> (r: String)
        ensures
            r@ == self.styled(Role::Hashtag, s@),
    {
        self.decorate(Role::Hashtag, s)
    }
}

impl Default for ColorConfig {
    fn default() -> (c: ColorConfig)
        ensures
            c.is_default(),
    {
        let mut color_user = bold_code();
        color_user.append(blue_code().as_str());
        let mut color_url = underline_code();
        color_url.append(blue_code().as_str());
        ColorConfig {
            color_user,
            color_time: yellow_code(),
            color_url,
            color_meta: red_code(),
            color_hash: yellow_code(),
        }
    }
}

} // verus!
