//! The directory of test servers, and how it is filled from the XML list
//! that the directory service sends.
//!
//! The list holds one empty element per server, with the server's data in
//! the element's attributes. The XML itself is read by `quick_xml`; this
//! module turns the attributes of each element into a `Server`.

use crate::http_tester::HttpTester;
use quick_xml::events::Event;
use quick_xml::Reader;
use vstd::prelude::*;
use vstd::string::*;

verus! {

/// `quick_xml`'s reader, carried as an opaque value.
#[verifier::external_type_specification]
#[verifier::external_body]
#[verifier::reject_recursive_types(R)]
pub struct ExReader<R>(Reader<R>);

/// What the reads of a new reader over `text` give, one entry for each read
/// before the end of the text is reported: the attributes of an empty
/// element, each as its name and its value as written, with `None` for an
/// attribute that `quick_xml` reports as an error; or `None` for a read that
/// gave anything but an empty element.
pub uninterp spec fn xml_steps(text: Seq<char>) -> Seq<Option<Seq<Option<(Seq<char>, Seq<char>)>>>>;

/// What the reads of this reader will give from now on, in the form of
/// `xml_steps`.
pub uninterp spec fn unread(reader: Reader<&[u8]>) -> Seq<
    Option<Seq<Option<(Seq<char>, Seq<char>)>>>,
>;

/// `Reader::from_str` makes a reader over the text with nothing read yet.
/// What it will give depends on the text alone.
pub assume_specification<'a>[ Reader::<&'a [u8]>::from_str ](text: &'a str) -> (reader: Reader<
    &'a [u8],
>)
    ensures
        unread(reader) == xml_steps(text@),
;

/// One attribute of an element: its name and its value as written.
#[derive(Debug)]
pub struct XmlAttribute {
    pub key: String,
    pub value: String,
}

/// What one read of the XML text gave.
#[derive(Debug)]
pub enum XmlStep {
    /// An empty element, with its attributes in the order written; `None`
    /// stands for an attribute that could not be read.
    Element(Vec<Option<XmlAttribute>>),
    /// Anything else: a tag that opens or closes, text, a comment, an error.
    Other,
    /// The end of the text.
    End,
}

/// Why the directory could not be filled.
#[derive(Clone, Copy, Debug, PartialEq, Eq, Structural)]
pub enum ServerListError {
    /// The `id` of a server is no 32-bit integer.
    InvalidId,
}

/// The character is one of the decimal digits `0` to `9`.
pub open spec fn is_digit(c: char) -> bool {
    48 <= c as u32 <= 57
}

/// The number that a run of decimal digits writes; 0 for the empty run.
pub open spec fn digits_value(digits: Seq<char>) -> nat
    decreases digits.len(),
{
    if digits.len() == 0 {
        0
    } else {
        digits_value(digits.drop_last()) * 10 + (digits.last() as u32 - 48) as nat
    }
}

/// The 32-bit integer that a text writes in decimal: one or more digits, with
/// `-` or `+` in front or without a sign, and nothing else. `None` for any
/// other text, and for a number that does not fit.
pub open spec fn parsed_id(text: Seq<char>) -> Option<i32> {
    let signed = text.len() > 0 && (text[0] == '-' || text[0] == '+');
    let negative = text.len() > 0 && text[0] == '-';
    let digits = if signed {
        text.skip(1)
    } else {
        text
    };
    let magnitude = digits_value(digits) as int;
    if digits.len() == 0 || !(forall|i: int| 0 <= i < digits.len() ==> is_digit(#[trigger] digits[i])) {
        None
    } else if negative {
        if magnitude <= 2147483648 {
            Some((-magnitude) as i32)
        } else {
            None
        }
    } else if magnitude <= 2147483647 {
        Some(magnitude as i32)
    } else {
        None
    }
}

/// Calls `str::parse::<i32>` and drops the reason of a failure. std documents
/// the text it accepts as an optional `+` or `-` followed by digits only, and
/// an error for the empty text, any other character and a number out of
/// range: `parsed_id` says the same.
#[verifier::external_body]
fn parse_id(text: &str) -> (id: Option<i32>)
    ensures
        id == parsed_id(text@),
{
    text.parse::<i32>().ok()
}

/// Calls `Reader::read_event` once and hands on what the library looks at:
/// for an empty element its attributes, in order, with `None` in place of
/// each that `quick_xml` reports as an error; the end of the text; or that
/// it was neither.
///
/// The contract claims that the read gives the first of what was unread and
/// leaves the rest, and that the end is reported exactly when nothing is
/// unread, and from then on at every read. In `quick_xml` every read that
/// does not report the end moves forward in the text, so only finitely many
/// come before the end; once the end is reported the reader is done, and
/// every later read reports it again.
#[verifier::external_body]
fn next_step(reader: &mut Reader<&[u8]>) -> (step: XmlStep)
    ensures
        match step {
            XmlStep::End => unread(*old(reader)).len() == 0 && unread(*final(reader)).len() == 0,
            XmlStep::Other => unread(*old(reader)).len() > 0 && unread(*old(reader))[0] is None
                && unread(*final(reader)) == unread(*old(reader)).skip(1),
            XmlStep::Element(attributes) => unread(*old(reader)).len() > 0 && unread(
                *old(reader),
            )[0] == Some(attribute_views(attributes@)) && unread(*final(reader)) == unread(
                *old(reader),
            ).skip(1),
        },
{
    match reader.read_event() {
        Ok(Event::Empty(element)) => XmlStep::Element(
            element.attributes().map(
                |read| read.ok().map(
                    |a| XmlAttribute {
                        key: a.key.into_inner().to_owned(),
                        value: a.value.into_owned(),
                    },
                ),
            ).collect(),
        ),
        Ok(Event::Eof) => XmlStep::End,
        _ => XmlStep::Other,
    }
}

/// Whether `text` reads `word`.
fn reads(text: &String, word: &str) -> (same: bool)
    ensures
        same == (text@ == word@),
{
    let other = String::from_str(word);
    *text == other
}

/// A server as contracts see it.
pub struct ServerView {
    pub id: i32,
    pub url: Seq<char>,
    pub name: Seq<char>,
    pub country: Seq<char>,
    pub sponsor: Seq<char>,
    pub host: Seq<char>,
}

/// The server with nothing set.
pub open spec fn blank() -> ServerView {
    ServerView {
        id: 0,
        url: Seq::empty(),
        name: Seq::empty(),
        country: Seq::empty(),
        sponsor: Seq::empty(),
        host: Seq::empty(),
    }
}

/// The server after one attribute was taken in: `id`, `name`, `url`,
/// `country`, `sponsor` and `host` set their field, any other name is passed
/// over. `None` where the value of `id` is no 32-bit integer.
pub open spec fn with_attribute(v: ServerView, key: Seq<char>, value: Seq<char>) -> Option<
    ServerView,
> {
    if key == "id"@ {
        match parsed_id(value) {
            Some(id) => Some(ServerView { id, ..v }),
            None => None,
        }
    } else if key == "name"@ {
        Some(ServerView { name: value, ..v })
    } else if key == "url"@ {
        Some(ServerView { url: value, ..v })
    } else if key == "country"@ {
        Some(ServerView { country: value, ..v })
    } else if key == "sponsor"@ {
        Some(ServerView { sponsor: value, ..v })
    } else if key == "host"@ {
        Some(ServerView { host: value, ..v })
    } else {
        Some(v)
    }
}

/// An attribute as contracts see it: its name and its value, or `None` for
/// one that could not be read.
pub open spec fn attribute_view(attribute: Option<XmlAttribute>) -> Option<(Seq<char>, Seq<char>)> {
    match attribute {
        Some(a) => Some((a.key@, a.value@)),
        None => None,
    }
}

/// The attributes as contracts see them.
pub open spec fn attribute_views(attributes: Seq<Option<XmlAttribute>>) -> Seq<
    Option<(Seq<char>, Seq<char>)>,
> {
    attributes.map_values(|a: Option<XmlAttribute>| attribute_view(a))
}

/// The server after the attributes were taken in one by one, first to last.
/// An attribute that could not be read is passed over.
pub open spec fn with_attributes(
    v: ServerView,
    attributes: Seq<Option<(Seq<char>, Seq<char>)>>,
) -> Option<ServerView>
    decreases attributes.len(),
{
    if attributes.len() == 0 {
        Some(v)
    } else {
        match (with_attributes(v, attributes.drop_last()), attributes.last()) {
            (Some(earlier), Some(attribute)) => with_attribute(earlier, attribute.0, attribute.1),
            (Some(earlier), None) => Some(earlier),
            (None, _) => None,
        }
    }
}

/// What the steps make of a directory, first step to last: the servers they
/// add, in their order, and whether they end at an element whose `id` is no
/// 32-bit integer. Nothing after such an element is taken in.
pub open spec fn filled(steps: Seq<Option<Seq<Option<(Seq<char>, Seq<char>)>>>>) -> (
    Seq<ServerView>,
    bool,
)
    decreases steps.len(),
{
    if steps.len() == 0 {
        (Seq::empty(), false)
    } else {
        match steps[0] {
            Some(attributes) => match with_attributes(blank(), attributes) {
                Some(v) => (seq![v] + filled(steps.skip(1)).0, filled(steps.skip(1)).1),
                None => (Seq::empty(), true),
            },
            None => filled(steps.skip(1)),
        }
    }
}

/// The steps of the text that are read: all of them, or as many as the text
/// has characters where there are more.
pub open spec fn steps_read(text: Seq<char>) -> Seq<Option<Seq<Option<(Seq<char>, Seq<char>)>>>> {
    if xml_steps(text).len() <= text.len() {
        xml_steps(text)
    } else {
        xml_steps(text).take(text.len() as int)
    }
}

/// The servers as contracts see them.
pub open spec fn views(servers: Seq<Server>) -> Seq<ServerView> {
    servers.map_values(|server: Server| server@)
}

/// Attributes that fail up to some point fail as a whole.
proof fn lemma_failure_stays(
    v: ServerView,
    attributes: Seq<Option<(Seq<char>, Seq<char>)>>,
    upto: int,
)
    requires
        0 <= upto <= attributes.len(),
        with_attributes(v, attributes.take(upto)) is None,
    ensures
        with_attributes(v, attributes) is None,
    decreases attributes.len(),
{
    if upto < attributes.len() {
        assert(attributes.drop_last().take(upto) =~= attributes.take(upto));
        lemma_failure_stays(v, attributes.drop_last(), upto);
    } else {
        assert(attributes.take(upto) =~= attributes);
    }
}

/// One server of the directory.
#[derive(Debug)]
pub struct Server {
    pub id: i32,
    pub url: String,
    pub name: String,
    pub country: String,
    pub sponsor: String,
    /// Host name and port that the probes are sent to.
    pub host: String,
}

impl Default for Server {
    fn default() -> (server: Server)
        ensures
            server@ == blank(),
    {
        Server {
            id: 0,
            url: String::new(),
            name: String::new(),
            country: String::new(),
            sponsor: String::new(),
            host: String::new(),
        }
    }
}

impl View for Server {
    type V = ServerView;

    open spec fn view(&self) -> ServerView {
        ServerView {
            id: self.id,
            url: self.url@,
            name: self.name@,
            country: self.country@,
            sponsor: self.sponsor@,
            host: self.host@,
        }
    }
}

impl Server {
    /// The server that an element with these attributes describes, `None`
    /// where the value of an `id` among them is no 32-bit integer.
    pub fn from_attributes(attributes: &Vec<Option<XmlAttribute>>) -> (server: Option<Server>)
        ensures
            match with_attributes(blank(), attribute_views(attributes@)) {
                Some(v) => server is Some && server->Some_0@ == v,
                None => server is None,
            },
    {
        let ghost shown = attribute_views(attributes@);
        let mut server = Server::default();
        assert(server@ == blank());
        let mut i: usize = 0;
        while i < attributes.len()
            invariant
                i <= attributes.len(),
                shown == attribute_views(attributes@),
                with_attributes(blank(), shown.take(i as int)) == Some(server@),
            decreases attributes.len() - i,
        {
            proof {
                assert(shown.take(i + 1).drop_last() =~= shown.take(i as int));
                assert(shown.take(i + 1).last() == attribute_view(attributes@[i as int]));
            }
            match &attributes[i] {
                Some(attribute) => {
                    if reads(&attribute.key, "id") {
                        match parse_id(attribute.value.as_str()) {
                            Some(id) => {
                                server.id = id;
                            },
                            None => {
                                proof {
                                    lemma_failure_stays(blank(), shown, i + 1);
                                }
                                return None;
                            },
                        }
                    } else if reads(&attribute.key, "name") {
                        server.name = attribute.value.clone();
                    } else if reads(&attribute.key, "url") {
                        server.url = attribute.value.clone();
                    } else if reads(&attribute.key, "country") {
                        server.country = attribute.value.clone();
                    } else if reads(&attribute.key, "sponsor") {
                        server.sponsor = attribute.value.clone();
                    } else if reads(&attribute.key, "host") {
                        server.host = attribute.value.clone();
                    }
                },
                None => {},
            }
            i = i + 1;
        }
        proof {
            assert(shown.take(i as int) =~= shown);
        }
        Some(server)
    }

    /// The tester for this server: its base URL is `http://` and the host.
    pub fn tester(&self) -> (tester: HttpTester)
        ensures
            tester@ == "http://"@ + self.host@,
    {
        HttpTester { url: String::from_str("http://").concat(self.host.as_str()) }
    }
}

/// Where the list of servers is asked for: the addresses are tried in this
/// order, and the first that answers gives the list.
pub fn directory_urls() -> (urls: Vec<&'static str>)
    ensures
        urls@.len() == 4,
        urls@[0]@ == "http://www.speedtest.net/speedtest-servers-static.php"@,
        urls@[1]@ == "http://c.speedtest.net/speedtest-servers-static.php"@,
        urls@[2]@ == "http://www.speedtest.net/speedtest-servers.php"@,
        urls@[3]@ == "http://c.speedtest.net/speedtest-servers.php"@,
{
    let mut urls: Vec<&'static str> = Vec::new();
    urls.push("http://www.speedtest.net/speedtest-servers-static.php");
    urls.push("http://c.speedtest.net/speedtest-servers-static.php");
    urls.push("http://www.speedtest.net/speedtest-servers.php");
    urls.push("http://c.speedtest.net/speedtest-servers.php");
    urls
}

/// What to do after an address of the directory was asked.
#[derive(Clone, Copy, Debug, PartialEq, Eq, Structural)]
pub enum FetchNext {
    /// Ask the address at this index of `directory_urls`.
    Ask(usize),
    /// A list was read: fill the directory from it.
    Parse,
    /// No list can be had.
    GiveUp,
}

/// The step that follows the answer of the address at index `tried`, where
/// `body` is the length of the text that was read, or `None` where the
/// request or the reading failed. The first text read ends the search: a
/// text that is not empty is the list, an empty one means that no list can
/// be had. After a failure the next address is asked, and after the last
/// address no list can be had.
pub open spec fn fetch_next(tried: usize, body: Option<usize>) -> FetchNext {
    match body {
        Some(len) => if len > 0 {
            FetchNext::Parse
        } else {
            FetchNext::GiveUp
        },
        None => if tried < 3 {
            FetchNext::Ask((tried + 1) as usize)
        } else {
            FetchNext::GiveUp
        },
    }
}

/// Decides what follows the answer of the address at index `tried`: see
/// `fetch_next`. The search starts at index 0.
pub fn after_fetch(tried: usize, body: Option<usize>) -> (next: FetchNext)
    ensures
        next == fetch_next(tried, body),
        next matches FetchNext::Ask(index) ==> index == tried + 1 && index < 4,
{
    match body {
        Some(len) => {
            if len > 0 {
                FetchNext::Parse
            } else {
                FetchNext::GiveUp
            }
        },
        None => {
            if tried < 3 {
                FetchNext::Ask(tried + 1)
            } else {
                FetchNext::GiveUp
            }
        },
    }
}

/// The servers of the directory, in the order in which it lists them.
#[derive(Debug)]
pub struct Servers {
    servers: Vec<Server>,
}

impl View for Servers {
    type V = Seq<Server>;

    closed spec fn view(&self) -> Seq<Server> {
        self.servers@
    }
}

impl Default for Servers {
    fn default() -> (servers: Servers)
        ensures
            servers@.len() == 0,
    {
        Servers { servers: Vec::new() }
    }
}

impl Servers {
    pub fn new() -> (servers: Servers)
        ensures
            servers@.len() == 0,
    {
        Servers { servers: Vec::new() }
    }

    /// Appends a server to the directory.
    pub fn add_server(&mut self, server: Server)
        ensures
            final(self)@ == old(self)@.push(server),
    {
        self.servers.push(server);
    }

    pub fn get_servers(&self) -> (servers: &Vec<Server>)
        ensures
            servers@ == self@,
    {
        &self.servers
    }

    /// Takes in what one read of the list gave. An element adds the server
    /// that its attributes describe; anything else adds nothing. Returns
    /// whether the list goes on, and the error of an element whose `id` is
    /// no integer: the directory is then left as it was.
    pub fn apply_step(&mut self, step: &XmlStep) -> (result: Result<bool, ServerListError>)
        ensures
            match *step {
                XmlStep::Element(attributes) => match with_attributes(
                    blank(),
                    attribute_views(attributes@),
                ) {
                    Some(v) => result == Ok::<bool, ServerListError>(true) && final(self)@.len()
                        == old(self)@.len() + 1 && final(self)@.drop_last() == old(self)@
                        && final(self)@.last()@ == v,
                    None => result == Err::<bool, ServerListError>(ServerListError::InvalidId)
                        && final(self)@ == old(self)@,
                },
                XmlStep::Other => result == Ok::<bool, ServerListError>(true) && final(self)@
                    == old(self)@,
                XmlStep::End => result == Ok::<bool, ServerListError>(false) && final(self)@
                    == old(self)@,
            },
    {
        match step {
            XmlStep::Element(attributes) => match Server::from_attributes(attributes) {
                Some(server) => {
                    self.servers.push(server);
                    assert(self.servers@.drop_last() =~= old(self)@);
                    Ok(true)
                },
                None => Err(ServerListError::InvalidId),
            },
            XmlStep::Other => Ok(true),
            XmlStep::End => Ok(false),
        }
    }

    /// Reads the XML list and adds a server for each empty element in it, in
    /// the order of the list, up to its end or to the first element whose
    /// `id` is no integer, which is reported. The servers held before stay in
    /// front. At most one read is made for each character of the text.
    pub fn update_from_xml(&mut self, text: &str) -> (result: Result<(), ServerListError>)
        ensures
            views(final(self)@) == views(old(self)@) + filled(steps_read(text@)).0,
            final(self)@.take(old(self)@.len() as int) == old(self)@,
            result is Err <==> filled(steps_read(text@)).1,
            result is Err ==> result == Err::<(), ServerListError>(ServerListError::InvalidId),
    {
        let mut reader = Reader::from_str(text);
        let limit: usize = text.unicode_len();
        let mut reads: usize = 0;
        let ghost window = steps_read(text@);
        proof {
            assert(window.skip(0) =~= window);
            assert(views(self@) + filled(window).0 =~= views(old(self)@) + filled(window).0);
        }
        while reads < limit
            invariant
                reads <= limit,
                limit == text@.len(),
                window == steps_read(text@),
                reads <= xml_steps(text@).len(),
                unread(reader) == xml_steps(text@).skip(reads as int),
                self@.take(old(self)@.len() as int) == old(self)@,
                old(self)@.len() <= self@.len(),
                views(old(self)@) + filled(window).0 == views(self@) + filled(
                    window.skip(reads as int),
                ).0,
                filled(window).1 == filled(window.skip(reads as int)).1,
            decreases limit - reads,
        {
            let ghost before = self@;
            let ghost rest = window.skip(reads as int);
            let step = next_step(&mut reader);
            proof {
                if !(step is End) {
                    assert(xml_steps(text@).skip(reads as int)[0] == xml_steps(text@)[reads as int]);
                    assert(rest[0] == xml_steps(text@)[reads as int]);
                    assert(rest.skip(1) =~= window.skip(reads + 1));
                    assert(xml_steps(text@).skip(reads as int).skip(1) =~= xml_steps(text@).skip(
                        reads + 1,
                    ));
                } else {
                    assert(rest.len() == 0);
                }
            }
            match self.apply_step(&step) {
                Ok(true) => {
                    proof {
                        assert(self@.take(old(self)@.len() as int) =~= before.take(
                            old(self)@.len() as int,
                        ));
                        if rest[0] is Some {
                            let v = with_attributes(blank(), rest[0]->Some_0)->Some_0;
                            assert(self@ =~= before.push(self@.last()));
                            assert(views(self@) =~= views(before).push(v));
                            assert(views(self@) + filled(rest.skip(1)).0 =~= views(before) + (seq![v]
                                + filled(rest.skip(1)).0));
                        }
                    }
                },
                Ok(false) => {
                    proof {
                        assert(views(self@) + filled(rest).0 =~= views(self@));
                    }
                    return Ok(());
                },
                Err(error) => {
                    proof {
                        assert(views(self@) + filled(rest).0 =~= views(self@));
                    }
                    return Err(error);
                },
            }
            reads = reads + 1;
        }
        proof {
            assert(window.skip(reads as int).len() == 0);
            assert(views(self@) + filled(window.skip(reads as int)).0 =~= views(self@));
        }
        Ok(())
    }

    /// The tester for the server at `index`, `None` where the directory has
    /// no such server: a run cannot start then.
    pub fn select(&self, index: usize) -> (tester: Option<HttpTester>)
        ensures
            index >= self@.len() ==> tester is None,
            index < self@.len() ==> tester is Some && tester->Some_0@ == "http://"@
                + self@[index as int].host@,
    {
        if index < self.servers.len() {
            Some(self.servers[index].tester())
        } else {
            None
        }
    }
}

} // verus!
