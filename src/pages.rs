use vstd::prelude::*;
use vstd::string::*;

verus! {

/// An article as the pages list it.
#[derive(Debug, Clone, PartialEq)]
pub struct Article {
    pub id: usize,
    pub author: String,
    pub title: String,
    pub preview: String,
}

/// The pages of the application.
#[derive(Debug, Clone, Copy, PartialEq, Eq, Structural)]
pub enum Route {
    Home,
    Submission,
    Archive,
    ArticlePage { article_id: usize },
    AuthorPage { author_id: usize },
}

pub open spec fn digit_char(d: nat) -> char {
    seq!['0', '1', '2', '3', '4', '5', '6', '7', '8', '9'][d as int]
}

/// The decimal digits of `n`, with no leading zero.
pub open spec fn decimal(n: nat) -> Seq<char>
    decreases n,
{
    if n < 10 {
        seq![digit_char(n)]
    } else {
        decimal(n / 10).push(digit_char(n % 10))
    }
}

fn digit_str(d: usize) -> (r: &'static str)
    requires
        d < 10,
    ensures
        r@ == seq![digit_char(d as nat)],
{
    match d {
        0 => {
            proof {
                reveal_strlit("0");
            }
            "0"
        },
        1 => {
            proof {
                reveal_strlit("1");
            }
            "1"
        },
        2 => {
            proof {
                reveal_strlit("2");
            }
            "2"
        },
        3 => {
            proof {
                reveal_strlit("3");
            }
            "3"
        },
        4 => {
            proof {
                reveal_strlit("4");
            }
            "4"
        },
        5 => {
            proof {
                reveal_strlit("5");
            }
            "5"
        },
        6 => {
            proof {
                reveal_strlit("6");
            }
            "6"
        },
        7 => {
            proof {
                reveal_strlit("7");
            }
            "7"
        },
        8 => {
            proof {
                reveal_strlit("8");
            }
            "8"
        },
        _ => {
            proof {
                reveal_strlit("9");
            }
            "9"
        },
    }
}

/// `n` written in decimal.
pub fn decimal_string(n: usize) -> (r: String)
    ensures
        r@ == decimal(n as nat),
    decreases n,
{
    if n < 10 {
        String::from_str(digit_str(n))
    } else {
        let mut s = decimal_string(n / 10);
        s.append(digit_str(n % 10));
        s
    }
}

impl Route {
    pub open spec fn path_spec(self) -> Seq<char> {
        match self {
            Route::Home => "/"@,
            Route::Submission => "/submit"@,
            Route::Archive => "/archive"@,
            Route::ArticlePage { article_id } => "/article/"@ + decimal(article_id as nat),
            Route::AuthorPage { author_id } => "/author/"@ + decimal(author_id as nat),
        }
    }

    /// The path that links to this page.
    pub fn path(&self) -> (r: String)
        ensures
            r@ == self.path_spec(),
    {
        match self {
            Route::Home => String::from_str("/"),
            Route::Submission => String::from_str("/submit"),
            Route::Archive => String::from_str("/archive"),
            Route::ArticlePage { article_id } => {
                String::from_str("/article/").concat(decimal_string(*article_id).as_str())
            },
            Route::AuthorPage { author_id } => {
                String::from_str("/author/").concat(decimal_string(*author_id).as_str())
            },
        }
    }
}

impl Article {
    /// The stand-in article that the pages show until articles are stored.
    pub fn sample(id: usize) -> (r: Article)
        ensures
            r.id == id,
            r.author@ == "Author"@,
            r.title@ == "Title"@,
            r.preview@ == "Preview text preview text preview text"@,
    {
        Article {
            id,
            author: String::from_str("Author"),
            title: String::from_str("Title"),
            preview: String::from_str("Preview text preview text preview text"),
        }
    }

    /// The two lines of the reading view: the article's number, then author and title.
    pub fn reading_lines(&self) -> (r: (String, String))
        ensures
            r.0@ == "Article "@ + decimal(self.id as nat),
            r.1@ == self.author@ + " - "@ + self.title@,
    {
        let first = String::from_str("Article ").concat(decimal_string(self.id).as_str());
        let second = self.author.clone().concat(" - ").concat(self.title.as_str());
        (first, second)
    }
}

/// What the author link says: the feed's link once the feed is there.
pub fn author_link_text(feed_link: Option<&str>) -> (r: String)
    ensures
        match feed_link {
            Some(l) => r@ == "PLACEHOLDER: "@ + l@,
            None => r@ == "Loading..."@,
        },
{
    match feed_link {
        Some(l) => String::from_str("PLACEHOLDER: ").concat(l),
        None => String::from_str("Loading..."),
    }
}

/// What the article title says: the feed's title once the feed is there.
pub fn article_title_text(feed_title: Option<&str>) -> (r: String)
    ensures
        match feed_title {
            Some(t) => r@ == "PLACEHOLDER: "@ + t@,
            None => r@ == "loading"@,
        },
{
    match feed_title {
        Some(t) => String::from_str("PLACEHOLDER: ").concat(t),
        None => String::from_str("loading"),
    }
}

/// The heading of an author's page.
pub fn author_heading(author_id: usize) -> (r: String)
    ensures
        r@ == "Author "@ + decimal(author_id as nat),
{
    String::from_str("Author ").concat(decimal_string(author_id).as_str())
}

} // verus!
