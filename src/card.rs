use vstd::prelude::*;
use crate::format::{
    binary_size, binary_size_of, decimal_of, decimal_text, en_grouped, grouped_of,
    one_line, span_phrase, span_phrase_of, trimmed_of, flattened,
};
use crate::index::{name_ok, valid_name};
use crate::search::{join_url, CrateInfo};
use crate::util::{escape_markdown, escaped, TextBuilder};

verus! {

pub open spec fn opt_view(o: Option<String>) -> Option<Seq<char>> {
    match o {
        Some(s) => Some(s@),
        None => None,
    }
}

/// What an optional fragment adds to a message: nothing when it is absent.
pub open spec fn opt_text(prefix: Seq<char>, v: Option<Seq<char>>, suffix: Seq<char>) -> Seq<char> {
    match v {
        Some(t) => prefix + t + suffix,
        None => Seq::empty(),
    }
}

pub open spec fn escaped_opt(o: Option<String>) -> Option<Seq<char>> {
    match o {
        Some(s) => Some(escaped(s@)),
        None => None,
    }
}

pub open spec fn size_of_opt(o: Option<usize>) -> Option<Seq<char>> {
    match o {
        Some(n) => Some(escaped(binary_size_of(n as nat))),
        None => None,
    }
}

pub open spec fn description_of(o: Option<String>) -> Option<Seq<char>> {
    match o {
        Some(d) => Some(escaped(trimmed_of(flattened(d@)))),
        None => None,
    }
}

/// The note on development and build dependencies, such as
/// `2 for dev, 1 for build`; `None` when there are neither.
pub open spec fn dependency_note_of(dev: nat, build: nat) -> Option<Seq<char>> {
    let d = if dev > 0 {
        decimal_of(dev) + " for dev"@
    } else {
        Seq::empty()
    };
    let b = if build > 0 {
        (if dev > 0 {
            ", "@
        } else {
            Seq::empty()
        }) + decimal_of(build) + " for build"@
    } else {
        Seq::empty()
    };
    if dev == 0 && build == 0 {
        None
    } else {
        Some(d + b)
    }
}

pub open spec fn dependency_label_of(n: nat) -> Seq<char> {
    if n == 1 {
        " Dependency"@
    } else {
        " Dependencies"@
    }
}

/// The rich-text message for package `q`, as seen at time `now` (seconds
/// since the epoch). Upstream text is escaped; the blocks come in a fixed
/// order: name, version, license, size, description, downloads, last
/// update, dependencies.
pub open spec fn message_of(q: Seq<char>, info: CrateInfo, now: int) -> Seq<char> {
    "📦 *"@ + escaped(q) + "*"@
        + " _"@ + escaped(info.version@) + "_"@
        + opt_text(", "@, escaped_opt(info.license), " License"@)
        + opt_text(" \\("@, size_of_opt(info.crate_size), "\\)"@)
        + opt_text("\n\n"@, description_of(info.description), "\n"@)
        + "\n📥 All\\-Time "@ + grouped_of(info.downloads as nat) + ""@
        + opt_text("\n🕒 Last Update "@, span_phrase_of(info.updated_at as int, now), ""@)
        + "\n📊 "@ + decimal_of(info.dependencies as nat) + dependency_label_of(info.dependencies as nat)
        + opt_text(" \\("@, dependency_note_of(info.dev_dependencies as nat, info.build_dependencies as nat), "\\)"@)
}

pub fn dependency_note(dev: usize, build: usize) -> (r: Option<String>)
    ensures
        opt_view(r) == dependency_note_of(dev as nat, build as nat),
{
    let mut buffer = String::new();
    if dev > 0 {
        let n = decimal_text(dev);
        buffer.append(n.as_str());
        buffer.append(" for dev");
    }
    if build > 0 {
        if dev > 0 {
            buffer.append(", ");
        }
        let n = decimal_text(build);
        buffer.append(n.as_str());
        buffer.append(" for build");
    }
    if dev == 0 && build == 0 {
        None
    } else {
        assert(buffer@ =~= dependency_note_of(dev as nat, build as nat)->0);
        Some(buffer)
    }
}

pub fn dependency_label(n: usize) -> (r: &'static str)
    ensures
        r@ == dependency_label_of(n as nat),
{
    if n == 1 {
        " Dependency"
    } else {
        " Dependencies"
    }
}

fn escape_opt(o: &Option<String>) -> (r: Option<String>)
    ensures
        opt_view(r) == escaped_opt(*o),
{
    match o {
        Some(s) => Some(escape_markdown(s.as_str())),
        None => None,
    }
}

/// Assembles the message for package `query` from what the search reported.
pub fn crate_message(query: &str, info: &CrateInfo, now: i64) -> (r: String)
    ensures
        r@ == message_of(query@, *info, now as int),
{
    let license = escape_opt(&info.license);
    let size = match info.crate_size {
        Some(n) => {
            let s = binary_size(n);
            Some(escape_markdown(s.as_str()))
        },
        None => None,
    };
    let description = match &info.description {
        Some(d) => {
            let line = one_line(d.as_str());
            Some(escape_markdown(line.as_str()))
        },
        None => None,
    };
    let deps = dependency_note(info.dev_dependencies, info.build_dependencies);
    let b = TextBuilder::new()
        .text("📦 *", escape_markdown(query), "*")
        .text(" _", escape_markdown(info.version.as_str()), "_");
    let ghost s1 = b@;
    let b = b.text_opt(", ", &license, " License");
    assert(b@ == s1 + opt_text(", "@, escaped_opt(info.license), " License"@));
    let ghost s2 = b@;
    let b = b.text_opt(" \\(", &size, "\\)");
    assert(b@ == s2 + opt_text(" \\("@, size_of_opt(info.crate_size), "\\)"@));
    let ghost s3 = b@;
    let b = b.text_opt("\n\n", &description, "\n");
    assert(b@ == s3 + opt_text("\n\n"@, description_of(info.description), "\n"@));
    let b = b.text("\n📥 All\\-Time ", en_grouped(info.downloads), "");
    let ghost s5 = b@;
    let updated = span_phrase(info.updated_at, now);
    let b = b.text_opt("\n🕒 Last Update ", &updated, "");
    assert(b@ == s5 + opt_text("\n🕒 Last Update "@, span_phrase_of(info.updated_at as int, now as int), ""@));
    let b = b.text("\n📊 ", decimal_text(info.dependencies), dependency_label(info.dependencies));
    let ghost s7 = b@;
    let b = b.text_opt(" \\(", &deps, "\\)");
    assert(b@ == s7 + opt_text(" \\("@, dependency_note_of(info.dev_dependencies as nat, info.build_dependencies as nat), "\\)"@));
    let text = b.build();
    text
}

/// A labelled link shown under the message.
pub struct LinkButton {
    pub label: String,
    pub url: String,
}

impl View for LinkButton {
    type V = (Seq<char>, Seq<char>);

    open spec fn view(&self) -> (Seq<char>, Seq<char>) {
        (self.label@, self.url@)
    }
}

pub open spec fn buttons_view(v: Seq<LinkButton>) -> Seq<(Seq<char>, Seq<char>)> {
    v.map_values(|b: LinkButton| b@)
}

/// The documentation link: the one the package gives, else its page on docs.rs.
pub open spec fn docs_url_of(q: Seq<char>, info: CrateInfo) -> Seq<char> {
    match info.documentation {
        Some(d) => d@,
        None => "https://docs.rs/"@ + q,
    }
}

/// The row of links: Home when there is a homepage, Docs always, Repo when
/// there is a repository, in that order.
pub open spec fn buttons_of(q: Seq<char>, info: CrateInfo) -> Seq<(Seq<char>, Seq<char>)> {
    (match info.homepage {
        Some(h) => seq![("🏠 Home"@, h@)],
        None => Seq::empty(),
    }) + seq![("📚 Docs"@, docs_url_of(q, info))] + (match info.repository {
        Some(r) => seq![("📂 Repo"@, r@)],
        None => Seq::empty(),
    })
}

pub fn link_buttons(query: &str, info: &CrateInfo) -> (r: Vec<LinkButton>)
    ensures
        buttons_view(r@) == buttons_of(query@, *info),
{
    let mut buttons: Vec<LinkButton> = Vec::new();
    if let Some(homepage) = &info.homepage {
        buttons.push(LinkButton { label: "🏠 Home".to_owned(), url: homepage.clone() });
    }
    let docs = match &info.documentation {
        Some(d) => d.clone(),
        None => {
            let mut url = "https://docs.rs/".to_owned();
            url.append(query);
            url
        },
    };
    buttons.push(LinkButton { label: "📚 Docs".to_owned(), url: docs });
    if let Some(repo) = &info.repository {
        buttons.push(LinkButton { label: "📂 Repo".to_owned(), url: repo.clone() });
    }
    assert(buttons_view(buttons@) =~= buttons_of(query@, *info));
    buttons
}

/// The reply to an inline query for a package that was found.
pub struct CrateCard {
    pub text: String,
    pub buttons: Vec<LinkButton>,
}

pub fn render_card(query: &str, info: &CrateInfo, now: i64) -> (r: CrateCard)
    ensures
        r.text@ == message_of(query@, *info, now as int),
        buttons_view(r.buttons@) == buttons_of(query@, *info),
{
    CrateCard { text: crate_message(query, info, now), buttons: link_buttons(query, info) }
}

/// The first step for an inline query: the search URL to fetch, or `None`
/// for a query that is empty, longer than 64 characters or not ASCII, which
/// gets no lookup and no reply.
pub fn search_request(search_base: &str, query: &str) -> (r: Option<String>)
    ensures
        name_ok(query@) ==> r is Some && r->0@ == search_base@ + seq!['/'] + query@,
        !name_ok(query@) ==> r is None,
{
    if valid_name(query) {
        Some(join_url(search_base, query))
    } else {
        None
    }
}

/// The last step for an inline query: one reply when the package was found,
/// none when it was not.
pub fn answer(query: &str, found: &Option<CrateInfo>, now: i64) -> (r: Option<CrateCard>)
    ensures
        found is None ==> r is None,
        found is Some ==> r is Some
            && r->0.text@ == message_of(query@, found->0, now as int)
            && buttons_view(r->0.buttons@) == buttons_of(query@, found->0),
{
    match found {
        Some(info) => Some(render_card(query, info, now)),
        None => None,
    }
}

} // verus!
