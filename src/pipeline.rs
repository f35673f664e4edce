use vstd::prelude::*;
use vstd::string::*;

use crate::analyzer::{
    analyze_file, any_rejected, location_of, messages_upto, messages_view, services_upto,
    services_view, AnalyzeResult, Message, MessageView, Service, ServiceView,
};
use crate::client::{client_text, render_client, INTROSPECTION_NAMESPACE};
use crate::dispatch::{dispatch_keys, dispatch_text, render_dispatch, service_keys};
use crate::scan::{glob_matches, select_files, sorted_texts};
use crate::source::Item;
use crate::text::{ends_with, has_suffix, str_eq};

verus! {

/// What stops a build.
#[derive(PartialEq, Eq, Debug)]
pub enum Error {
    MissingExportDir,
    FailedToParseFile(String),
    FailedToWriteFile(String),
    DuplicateServiceName(String),
    UnsupportedMessageShape(String),
}

/// The sentence that says what went wrong.
pub open spec fn error_text(e: Error) -> Seq<char> {
    match e {
        Error::MissingExportDir => "Missing export dir"@,
        Error::FailedToParseFile(f) => "Failed to parse file: "@ + f@,
        Error::FailedToWriteFile(f) => "Failed to write file: "@ + f@,
        Error::DuplicateServiceName(n) => "Duplicate service name: "@ + n@,
        Error::UnsupportedMessageShape(l) => "Only structs and enums can be messages, in: "@ + l@,
    }
}

impl Error {
    /// A sentence that says what went wrong.
    pub fn message(&self) -> (r: String)
        ensures
            r@ == error_text(*self),
    {
        match self {
            Error::MissingExportDir => String::from_str("Missing export dir"),
            Error::FailedToParseFile(f) => {
                let mut r = String::from_str("Failed to parse file: ");
                r.append(f.as_str());
                r
            },
            Error::FailedToWriteFile(f) => {
                let mut r = String::from_str("Failed to write file: ");
                r.append(f.as_str());
                r
            },
            Error::DuplicateServiceName(n) => {
                let mut r = String::from_str("Duplicate service name: ");
                r.append(n.as_str());
                r
            },
            Error::UnsupportedMessageShape(l) => {
                let mut r = String::from_str("Only structs and enums can be messages, in: ");
                r.append(l.as_str());
                r
            },
        }
    }
}

/// A source file handed to a build: its path, and its top-level items, or
/// none where the file did not parse.
pub struct SourceFile {
    pub path: String,
    pub items: Option<Vec<Item>>,
}

/// The two generated sources of a build.
pub struct Artifacts {
    /// The client module, to be written as `index.ts` in the export directory.
    pub client: String,
    /// The dispatch module of the host.
    pub dispatch: String,
}

/// How a build is set up.
pub struct Pipeline {
    pub root_dir: String,
    pub base_crate_path: String,
    pub files: Vec<String>,
    pub export_dir: Option<String>,
    pub debug_comments: bool,
    pub introspection: bool,
    pub custom_types: Vec<String>,
    pub custom_header: Option<String>,
    pub custom_footer: Option<String>,
}

/// The default setup for the sources under `root_dir`.
pub fn default(root_dir: &str) -> (r: Pipeline)
    ensures
        r.root_dir@ == root_dir@,
        r.base_crate_path@ == "crate"@,
        r.files@.len() == 0,
        r.export_dir is None,
        !r.debug_comments,
        !r.introspection,
        r.custom_types@.len() == 0,
        r.custom_header is None,
        r.custom_footer is None,
{
    Pipeline {
        root_dir: root_dir.to_owned(),
        base_crate_path: String::from_str("crate"),
        files: Vec::new(),
        export_dir: None,
        debug_comments: false,
        introspection: false,
        custom_types: Vec::new(),
        custom_header: None,
        custom_footer: None,
    }
}

/// The service that serves the generated client itself.
pub open spec fn introspection_service() -> ServiceView {
    ServiceView {
        name: "ts_client"@,
        location: INTROSPECTION_NAMESPACE@,
        arguments: Seq::empty(),
        return_type: "String"@,
    }
}

/// Whether a file did not parse, or holds a message marker on an item that
/// is neither a record nor an enumeration.
pub open spec fn file_fails(f: SourceFile) -> bool {
    match f.items {
        None => true,
        Some(items) => any_rejected(items@),
    }
}

/// The index of the first file that fails, or the number of files.
pub open spec fn first_failure(files: Seq<SourceFile>, from: int) -> int
    decreases files.len() - from,
{
    if from >= files.len() || from < 0 {
        files.len() as int
    } else if file_fails(files[from]) {
        from
    } else {
        first_failure(files, from + 1)
    }
}

pub open spec fn file_services(f: SourceFile) -> Seq<ServiceView> {
    match f.items {
        Some(items) => services_upto(items@, location_of(f.path@), items@.len()),
        None => Seq::empty(),
    }
}

pub open spec fn file_messages(f: SourceFile) -> Seq<MessageView> {
    match f.items {
        Some(items) => messages_upto(items@, location_of(f.path@), items@.len()),
        None => Seq::empty(),
    }
}

/// The services of the first `n` files, in order.
pub open spec fn all_services(files: Seq<SourceFile>, n: nat) -> Seq<ServiceView>
    decreases n,
{
    if n == 0 {
        Seq::empty()
    } else {
        all_services(files, (n - 1) as nat) + file_services(files[n - 1])
    }
}

/// The messages of the first `n` files, in order.
pub open spec fn all_messages(files: Seq<SourceFile>, n: nat) -> Seq<MessageView>
    decreases n,
{
    if n == 0 {
        Seq::empty()
    } else {
        all_messages(files, (n - 1) as nat) + file_messages(files[n - 1])
    }
}

/// The services that both artifacts serve: those of the files, then the
/// introspection service where introspection is on.
pub open spec fn build_services(files: Seq<SourceFile>, introspection: bool) -> Seq<ServiceView> {
    all_services(files, files.len()) + if introspection {
        seq![introspection_service()]
    } else {
        Seq::empty()
    }
}

/// The path of the client file in the export directory.
pub open spec fn client_file_path(dir: Seq<char>) -> Seq<char> {
    if has_suffix(dir, "/"@) {
        dir + "index.ts"@
    } else {
        dir + "/index.ts"@
    }
}

/// Whether two services share a call key.
pub open spec fn has_duplicate_key(svcs: Seq<ServiceView>) -> bool {
    !dispatch_keys(svcs).no_duplicates()
}

/// Whether two of the services have the call key `k`.
pub open spec fn repeated_key(svcs: Seq<ServiceView>, k: Seq<char>) -> bool {
    exists|i: int, j: int|
        0 <= i < j < svcs.len() && #[trigger] dispatch_keys(svcs)[i] == k && #[trigger] dispatch_keys(
            svcs,
        )[j] == k
}

impl Pipeline {
    /// The files under the root directory, given as `found`, whose path
    /// matches `glob`, in lexicographic order.
    pub fn add_files(self, glob: &str, found: Vec<String>) -> (r: Self)
        ensures
            sorted_texts(r.files.deep_view()),
            r.files.deep_view().to_multiset() == found.deep_view().filter(
                |p: Seq<char>| glob_matches(glob@, p),
            ).to_multiset(),
            r.root_dir == self.root_dir,
            r.base_crate_path == self.base_crate_path,
            r.export_dir == self.export_dir,
            r.debug_comments == self.debug_comments,
            r.introspection == self.introspection,
            r.custom_types == self.custom_types,
            r.custom_header == self.custom_header,
            r.custom_footer == self.custom_footer,
    {
        Pipeline { files: select_files(found, glob), ..self }
    }

    /// Turns on the debug comment in the client.
    pub fn enable_debug_comments(self) -> (r: Self)
        ensures
            r.debug_comments,
            r == (Pipeline { debug_comments: true, ..self }),
    {
        Pipeline { debug_comments: true, ..self }
    }

    /// Turns on the service that serves the generated client.
    pub fn enable_introspection(self) -> (r: Self)
        ensures
            r.introspection,
            r == (Pipeline { introspection: true, ..self }),
    {
        Pipeline { introspection: true, ..self }
    }

    /// Sets the location prefix that the client's namespaces leave out.
    pub fn with_base_crate_path(self, path: &str) -> (r: Self)
        ensures
            r.base_crate_path@ == path@,
            r == (Pipeline { base_crate_path: r.base_crate_path, ..self }),
    {
        Pipeline { base_crate_path: path.to_owned(), ..self }
    }

    /// Sets the extra type aliases of the client, each as `Name = type`.
    pub fn with_custom_types(self, types: Vec<&str>) -> (r: Self)
        ensures
            r.custom_types@.len() == types@.len(),
            forall|i: int| 0 <= i < types@.len() ==> #[trigger] r.custom_types@[i]@ == types@[i]@,
            r == (Pipeline { custom_types: r.custom_types, ..self }),
    {
        let mut owned: Vec<String> = Vec::new();
        let mut i: usize = 0;
        while i < types.len()
            invariant
                i <= types.len(),
                owned@.len() == i,
                forall|j: int| 0 <= j < i ==> #[trigger] owned@[j]@ == types@[j]@,
            decreases types.len() - i,
        {
            owned.push(types[i].to_owned());
            i = i + 1;
        }
        Pipeline { custom_types: owned, ..self }
    }

    /// Sets the text that starts the client.
    pub fn with_custom_header(self, header: &str) -> (r: Self)
        ensures
            r.custom_header matches Some(h) && h@ == header@,
            r == (Pipeline { custom_header: r.custom_header, ..self }),
    {
        Pipeline { custom_header: Some(header.to_owned()), ..self }
    }

    /// Sets the text that ends the client.
    pub fn with_custom_footer(self, footer: &str) -> (r: Self)
        ensures
            r.custom_footer matches Some(f) && f@ == footer@,
            r == (Pipeline { custom_footer: r.custom_footer, ..self }),
    {
        Pipeline { custom_footer: Some(footer.to_owned()), ..self }
    }

    /// Sets the directory that the client is written to.
    pub fn export_to_dir(self, path: &str) -> (r: Self)
        ensures
            r.export_dir matches Some(d) && d@ == path@,
            r == (Pipeline { export_dir: r.export_dir, ..self }),
    {
        Pipeline { export_dir: Some(path.to_owned()), ..self }
    }
}

/// When none of the files before `i` fails, the first failure is at `i` or
/// later.
pub proof fn lemma_first_failure_from(files: Seq<SourceFile>, i: int)
    requires
        0 <= i <= files.len(),
        forall|k: int| 0 <= k < i ==> !file_fails(#[trigger] files[k]),
    ensures
        first_failure(files, 0) == first_failure(files, i),
    decreases i,
{
    if i > 0 {
        assert(forall|k: int| 0 <= k < i - 1 ==> !file_fails(#[trigger] files[k]));
        lemma_first_failure_from(files, i - 1);
        assert(!file_fails(files[i - 1]));
    }
}

/// The declarations of all the files, in order. Fails at the first file that
/// did not parse, or that holds a message marker on an item that is neither
/// a record nor an enumeration.
pub fn combine_files(files: &Vec<SourceFile>) -> (r: Result<AnalyzeResult, Error>)
    ensures
        r.is_ok() == (first_failure(files@, 0) == files@.len()),
        r matches Ok(res) ==> services_view(res.services@) == all_services(files@, files@.len())
            && messages_view(res.messages@) == all_messages(files@, files@.len()),
        r matches Err(e) ==> {
            let f = files@[first_failure(files@, 0)];
            match f.items {
                None => e matches Error::FailedToParseFile(p) && p@ == f.path@,
                Some(_) => e matches Error::UnsupportedMessageShape(l) && l@ == location_of(f.path@),
            }
        },
{
    let mut services: Vec<Service> = Vec::new();
    let mut messages: Vec<Message> = Vec::new();
    let mut i: usize = 0;
    while i < files.len()
        invariant
            i <= files.len(),
            forall|k: int| 0 <= k < i ==> !file_fails(#[trigger] files@[k]),
            services_view(services@) == all_services(files@, i as nat),
            messages_view(messages@) == all_messages(files@, i as nat),
        decreases files.len() - i,
    {
        let f = &files[i];
        proof {
            lemma_first_failure_from(files@, i as int);
        }
        match &f.items {
            None => {
                return Err(Error::FailedToParseFile(f.path.clone()));
            },
            Some(items) => {
                match analyze_file(items, f.path.as_str()) {
                    Err(e) => {
                        return Err(e);
                    },
                    Ok(res) => {
                        let ghost sv = services_view(services@);
                        let ghost mv = messages_view(messages@);
                        let mut more_services = res.services;
                        let mut more_messages = res.messages;
                        let ghost add_s = more_services@;
                        let ghost add_m = more_messages@;
                        services.append(&mut more_services);
                        messages.append(&mut more_messages);
                        assert(services_view(services@) =~= sv + services_view(add_s));
                        assert(messages_view(messages@) =~= mv + messages_view(add_m));
                    },
                }
            },
        }
        i = i + 1;
    }
    proof {
        lemma_first_failure_from(files@, files@.len() as int);
    }
    Ok(
        AnalyzeResult {
            file_location: String::from_str("crate"),
            services,
            messages,
        },
    )
}

/// The index of a key that repeats an earlier one, if any.
pub fn find_duplicate(keys: &Vec<String>) -> (r: Option<usize>)
    ensures
        r is None <==> keys.deep_view().no_duplicates(),
        r matches Some(j) ==> j < keys.len() && exists|i: int|
            0 <= i < j && keys.deep_view()[i] == #[trigger] keys.deep_view()[j as int],
{
    let ghost kv = keys.deep_view();
    let mut j: usize = 0;
    while j < keys.len()
        invariant
            kv == keys.deep_view(),
            j <= keys.len(),
            forall|a: int, b: int| 0 <= a < b < j ==> kv[a] != kv[b],
        decreases keys.len() - j,
    {
        let mut i: usize = 0;
        while i < j
            invariant
                kv == keys.deep_view(),
                i <= j < keys.len(),
                forall|a: int| 0 <= a < i ==> kv[a] != kv[j as int],
            decreases j - i,
        {
            assert(kv[i as int] == keys[i as int]@ && kv[j as int] == keys[j as int]@);
            if str_eq(keys[i].as_str(), keys[j].as_str()) {
                assert(kv[i as int] == kv[j as int]);
                return Some(j);
            }
            i = i + 1;
        }
        j = j + 1;
    }
    assert forall|a: int, b: int|
        0 <= a < kv.len() && 0 <= b < kv.len() && a != b implies kv[a] != kv[b] by {
        if a > b {
            assert(kv[b] != kv[a]);
        }
    }
    None
}

impl Pipeline {
    /// Where the dispatch module's introspection service reads the client:
    /// the client file in the export directory, where introspection is on.
    pub open spec fn introspection_path(&self) -> Option<Seq<char>> {
        if self.introspection {
            match self.export_dir {
                Some(d) => Some(client_file_path(d@)),
                None => None,
            }
        } else {
            None
        }
    }

    /// The client source for a set of services and messages.
    pub open spec fn client_source(&self, svcs: Seq<ServiceView>, msgs: Seq<MessageView>) -> Seq<
        char,
    > {
        client_text(
            self.debug_comments,
            self.custom_header,
            self.custom_types.deep_view(),
            self.custom_footer,
            self.base_crate_path@,
            self.introspection,
            svcs,
            msgs,
        )
    }

    /// The client source for `result`. Fails where no export directory is
    /// set.
    pub fn build_ts_client(&self, result: &AnalyzeResult) -> (r: Result<String, Error>)
        ensures
            self.export_dir is None ==> r matches Err(Error::MissingExportDir),
            self.export_dir is Some ==> (r matches Ok(c) && c@ == self.client_source(
                services_view(result.services@),
                messages_view(result.messages@),
            )),
    {
        if self.export_dir.is_none() {
            return Err(Error::MissingExportDir);
        }
        Ok(
            render_client(
                self.debug_comments,
                &self.custom_header,
                &self.custom_types,
                &self.custom_footer,
                self.base_crate_path.as_str(),
                self.introspection,
                result,
            ),
        )
    }

    /// The dispatch module for `result`. Fails where introspection is on and
    /// no export directory is set.
    pub fn build_rust_handler(&self, result: &AnalyzeResult) -> (r: Result<String, Error>)
        ensures
            self.introspection && self.export_dir is None ==> r matches Err(Error::MissingExportDir),
            !(self.introspection && self.export_dir is None) ==> (r matches Ok(d) && d@
                == dispatch_text(
                services_view(result.services@),
                self.base_crate_path@,
                self.introspection_path(),
            )),
    {
        let client_file = if self.introspection {
            match &self.export_dir {
                None => {
                    return Err(Error::MissingExportDir);
                },
                Some(d) => {
                    let mut p = d.clone();
                    if ends_with(d.as_str(), "/") {
                        p.append("index.ts");
                    } else {
                        p.append("/index.ts");
                    }
                    Some(p)
                },
            }
        } else {
            None
        };
        let r = render_dispatch(result, self.base_crate_path.as_str(), &client_file);
        Ok(r)
    }

    /// Both generated sources, from the same declarations: those of `sources`
    /// in order, then the introspection service where introspection is on.
    /// Fails at the first file that did not parse or holds a misplaced message
    /// marker; then where no export directory is set; then where two services
    /// share a call key.
    pub fn build(&self, sources: &Vec<SourceFile>) -> (r: Result<Artifacts, Error>)
        ensures
            first_failure(sources@, 0) < sources@.len() ==> (r matches Err(e) && {
                let f = sources@[first_failure(sources@, 0)];
                match f.items {
                    None => e matches Error::FailedToParseFile(p) && p@ == f.path@,
                    Some(_) => e matches Error::UnsupportedMessageShape(l) && l@ == location_of(
                        f.path@,
                    ),
                }
            }),
            first_failure(sources@, 0) == sources@.len() && self.export_dir is None ==> r matches Err(
                Error::MissingExportDir,
            ),
            first_failure(sources@, 0) == sources@.len() && self.export_dir is Some
                && has_duplicate_key(build_services(sources@, self.introspection)) ==> (r matches Err(
                Error::DuplicateServiceName(k),
            ) && repeated_key(build_services(sources@, self.introspection), k@)),
            first_failure(sources@, 0) == sources@.len() && self.export_dir is Some
                && !has_duplicate_key(build_services(sources@, self.introspection)) ==> (r matches Ok(
                a,
            ) && a.client@ == self.client_source(
                build_services(sources@, self.introspection),
                all_messages(sources@, sources@.len()),
            ) && a.dispatch@ == dispatch_text(
                build_services(sources@, self.introspection),
                self.base_crate_path@,
                self.introspection_path(),
            )),
    {
        let mut combined = match combine_files(sources) {
            Err(e) => {
                return Err(e);
            },
            Ok(c) => c,
        };
        if self.export_dir.is_none() {
            return Err(Error::MissingExportDir);
        }
        let ghost before = services_view(combined.services@);
        if self.introspection {
            let svc = Service {
                name: String::from_str("ts_client"),
                location: String::from_str(INTROSPECTION_NAMESPACE),
                arguments: Vec::new(),
                return_type: String::from_str("String"),
            };
            assert(svc@.arguments =~= Seq::<(Seq<char>, Seq<char>)>::empty());
            combined.services.push(svc);
        }
        let ghost svcs = build_services(sources@, self.introspection);
        assert(services_view(combined.services@) =~= svcs);
        let keys = service_keys(&combined.services);
        match find_duplicate(&keys) {
            Some(j) => {
                let ghost kv = keys.deep_view();
                assert(kv[j as int] == keys[j as int]@);
                return Err(Error::DuplicateServiceName(keys[j].clone()));
            },
            None => {},
        }
        let client = match self.build_ts_client(&combined) {
            Ok(c) => c,
            Err(e) => {
                return Err(e);
            },
        };
        let dispatch = match self.build_rust_handler(&combined) {
            Ok(d) => d,
            Err(e) => {
                return Err(e);
            },
        };
        Ok(Artifacts { client, dispatch })
    }
}

} // verus!
