//! The catalogue of blog posts: lookup of a post by its slug, and the posts
//! that the blog listing shows.
use vstd::prelude::*;

verus! {

/// A calendar date.
#[derive(Clone, Copy, Debug, PartialEq, Eq, Structural)]
pub struct Date {
    pub year: i32,
    pub month: u8,
    pub day: u8,
}

/// What the site knows of a post besides its text.
#[derive(Clone, Debug, PartialEq, Eq)]
pub struct Metadata {
    pub title: String,
    pub date: Date,
    pub slug: String,
    pub subtitle: String,
    pub published: bool,
}

fn entry(
    title: &str,
    year: i32,
    month: u8,
    day: u8,
    slug: &str,
    subtitle: &str,
    published: bool,
) -> (r: Metadata)
    ensures
        r.title@ == title@,
        r.date == (Date { year, month, day }),
        r.slug@ == slug@,
        r.subtitle@ == subtitle@,
        r.published == published,
{
    Metadata {
        title: title.to_owned(),
        date: Date { year, month, day },
        slug: slug.to_owned(),
        subtitle: subtitle.to_owned(),
        published,
    }
}

/// Whether `m` describes the post with these fields.
pub open spec fn describes(
    m: Metadata,
    title: Seq<char>,
    date: Date,
    slug: Seq<char>,
    subtitle: Seq<char>,
    published: bool,
) -> bool {
    m.title@ == title && m.date == date && m.slug@ == slug && m.subtitle@ == subtitle
        && m.published == published
}

/// The posts of the blog, newest first.
pub fn blog_posts() -> (r: Vec<Metadata>)
    ensures
        r@.len() == 5,
        describes(
            r@[0],
            "nanoGPT + Rust :: Part 2"@,
            Date { year: 2023, month: 2, day: 20 },
            "nanogpt-rust-part-2"@,
            "Mixing Python Notebooks + Rust"@,
            false,
        ),
        describes(
            r@[1],
            "nanoGPT + Rust :: Part 1"@,
            Date { year: 2023, month: 2, day: 19 },
            "nanogpt-rust-part-1"@,
            "Mixing Python Notebooks + Rust"@,
            true,
        ),
        describes(
            r@[2],
            "Using Rust Docs Effectively"@,
            Date { year: 2022, month: 10, day: 7 },
            "using-rust-docs-effectively"@,
            "docs.rs, cargo doc tips"@,
            false,
        ),
        describes(
            r@[3],
            "Rewriting the Modern Web in Rust"@,
            Date { year: 2022, month: 10, day: 1 },
            "rewriting-the-modern-web-in-rust"@,
            "Rust, spa, ssr, mdx, yew hooks, bazel"@,
            true,
        ),
        describes(
            r@[4],
            "Building a Blog Like it's 2022 ✨"@,
            Date { year: 2022, month: 2, day: 15 },
            "building-a-blog-like-its-2022"@,
            "With Next.js, typescript, react, mdx, rust + wasm"@,
            true,
        ),
{
    let mut r: Vec<Metadata> = Vec::new();
    r.push(
        entry(
            "nanoGPT + Rust :: Part 2",
            2023,
            2,
            20,
            "nanogpt-rust-part-2",
            "Mixing Python Notebooks + Rust",
            false,
        ),
    );
    r.push(
        entry(
            "nanoGPT + Rust :: Part 1",
            2023,
            2,
            19,
            "nanogpt-rust-part-1",
            "Mixing Python Notebooks + Rust",
            true,
        ),
    );
    r.push(
        entry(
            "Using Rust Docs Effectively",
            2022,
            10,
            7,
            "using-rust-docs-effectively",
            "docs.rs, cargo doc tips",
            false,
        ),
    );
    r.push(
        entry(
            "Rewriting the Modern Web in Rust",
            2022,
            10,
            1,
            "rewriting-the-modern-web-in-rust",
            "Rust, spa, ssr, mdx, yew hooks, bazel",
            true,
        ),
    );
    r.push(
        entry(
            "Building a Blog Like it's 2022 ✨",
            2022,
            2,
            15,
            "building-a-blog-like-its-2022",
            "With Next.js, typescript, react, mdx, rust + wasm",
            true,
        ),
    );
    r
}

/// The position of the first post in `posts` whose slug is `slug`.
pub fn find_post(posts: &Vec<Metadata>, slug: &str) -> (r: Option<usize>)
    ensures
        r matches Some(i) ==> i < posts@.len() && posts@[i as int].slug@ == slug@ && forall|j: int|
            0 <= j < i ==> posts@[j].slug@ != slug@,
        r is None ==> forall|j: int| 0 <= j < posts@.len() ==> posts@[j].slug@ != slug@,
{
    let wanted = slug.to_owned();
    let mut i: usize = 0;
    while i < posts.len()
        invariant
            i <= posts@.len(),
            wanted@ == slug@,
            forall|j: int| 0 <= j < i ==> posts@[j].slug@ != slug@,
        decreases posts@.len() - i,
    {
        if posts[i].slug == wanted {
            return Some(i);
        }
        i = i + 1;
    }
    None
}

/// Whether the blog listing shows a post.
pub open spec fn is_listed(m: Metadata, show_unpublished: bool) -> bool {
    show_unpublished || m.published
}

/// The positions, in order, of the posts that the blog listing shows: the
/// published ones, or all of them when unpublished posts are shown.
pub fn listed_posts(posts: &Vec<Metadata>, show_unpublished: bool) -> (r: Vec<usize>)
    ensures
        forall|a: int, b: int| 0 <= a < b < r@.len() ==> r@[a] < r@[b],
        forall|k: int|
            0 <= k < r@.len() ==> #[trigger] r@[k] < posts@.len() && is_listed(
                posts@[r@[k] as int],
                show_unpublished,
            ),
        forall|i: int|
            0 <= i < posts@.len() && is_listed(#[trigger] posts@[i], show_unpublished)
                ==> r@.contains(i as usize),
{
    let mut r: Vec<usize> = Vec::new();
    let mut i: usize = 0;
    while i < posts.len()
        invariant
            i <= posts@.len(),
            forall|a: int, b: int| 0 <= a < b < r@.len() ==> r@[a] < r@[b],
            forall|k: int|
                0 <= k < r@.len() ==> #[trigger] r@[k] < i && is_listed(
                    posts@[r@[k] as int],
                    show_unpublished,
                ),
            forall|j: int|
                0 <= j < i && is_listed(#[trigger] posts@[j], show_unpublished) ==> r@.contains(
                    j as usize,
                ),
        decreases posts@.len() - i,
    {
        if show_unpublished || posts[i].published {
            let ghost prev = r@;
            r.push(i);
            assert(r@ == prev.push(i));
            assert forall|k: int| 0 <= k < prev.len() implies r@[k] == prev[k] && prev[k] < i by {}
            assert forall|j: int|
                0 <= j < i + 1 && is_listed(#[trigger] posts@[j], show_unpublished) implies r@.contains(
                j as usize,
            ) by {
                if j < i {
                    let k = choose|k: int| 0 <= k < prev.len() && prev[k] == j as usize;
                    assert(r@[k] == j as usize);
                } else {
                    assert(r@[prev.len() as int] == j as usize);
                }
            }
        }
        i = i + 1;
    }
    r
}

} // verus!
