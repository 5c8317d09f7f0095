//! Installing a version: which release and which of its files to take,
//! where they go on disk, and the steps from the request to the unpacked
//! toolchain.

use vstd::prelude::*;
use crate::pattern::{
    first_flag, first_set, lemma_first_set, match_flags, matching_flags, pattern_compiles,
    InvalidPattern,
};
use crate::releases::{catalog, Release, ReleaseView, GITLAB_URL};
use crate::text::{
    chars_of, contains, contains_str, equal_str, lemma_find_from, lemma_split_from_step,
    lemma_split_nonempty, matches_at, push_all, push_str, replace, replace_in, split, split_by,
    string_of, string_views, views,
};
use crate::version::{
    get_tag_names, global_name, is_valid_version, parse_version, resolved, tag_names,
    valid_version, versions_of, VersionError,
};

verus! {

/// One downloadable file of a release: its address and its file name.
#[derive(Debug)]
pub struct AssetLink {
    pub direct_asset_url: String,
    pub name: String,
}

/// An asset link as plain values.
pub struct AssetLinkView {
    pub direct_asset_url: Seq<char>,
    pub name: Seq<char>,
}

impl View for AssetLink {
    type V = AssetLinkView;

    open spec fn view(&self) -> AssetLinkView {
        AssetLinkView { direct_asset_url: self.direct_asset_url@, name: self.name@ }
    }
}

/// A list of asset links as plain values.
pub open spec fn asset_views(links: Seq<AssetLink>) -> Seq<AssetLinkView> {
    Seq::new(links.len(), |i: int| links[i]@)
}

/// Why an install could not be begun.
#[derive(Clone, Copy, Debug, PartialEq, Eq, Structural)]
pub enum InstallError {
    /// The version asked for could not be resolved.
    Version { error: VersionError },
    /// The resolved version is no regular expression to match tags with.
    InvalidPattern,
}

/// The address that lists the files of the release tagged `tag`: the
/// catalog address, the tag with the slash of `release/` escaped, and
/// `/assets/links`.
pub open spec fn links_address(tag: Seq<char>) -> Seq<char> {
    GITLAB_URL@ + "/"@ + replace(tag, "release/"@, "release%2F"@) + "/assets/links"@
}

/// The address that lists the files of the release tagged `tag_name`.
pub fn asset_links_url(tag_name: &str) -> (url: String)
    ensures
        url@ == links_address(tag_name@),
{
    let escaped = replace_in(&chars_of(tag_name), &chars_of("release/"), &chars_of("release%2F"));
    let mut out: Vec<char> = Vec::new();
    push_str(&mut out, GITLAB_URL);
    push_str(&mut out, "/");
    push_all(&mut out, &escaped);
    push_str(&mut out, "/assets/links");
    assert(out@ =~= links_address(tag_name@));
    string_of(&out)
}

/// The tag of the first release with files that the resolved version
/// matches, read as a regular expression.
pub open spec fn matching_tag(pattern: Seq<char>, cat: Seq<ReleaseView>) -> Option<Seq<char>> {
    match first_set(match_flags(pattern, tag_names(cat))) {
        Some(i) => Some(tag_names(cat)[i]),
        None => None,
    }
}

/// The tag among `tags` that the first `true` of `flags` marks; `None`
/// where no flag is set, or the flag set has no tag.
pub fn pick_tag(tags: &Vec<String>, flags: &Vec<bool>) -> (tag: Option<String>)
    ensures
        match first_set(flags@) {
            Some(i) => if i < tags@.len() {
                tag is Some && tag->Some_0@ == tags@[i]@
            } else {
                tag is None
            },
            None => tag is None,
        },
{
    proof {
        lemma_first_set(flags@);
    }
    match first_flag(flags) {
        Some(i) => if i < tags.len() {
            Some(tags[i].clone())
        } else {
            None
        },
        None => None,
    }
}

/// The tag of the first release with files that `pattern` matches.
pub fn find_release_tag(pattern: &str, releases: &Vec<Release>) -> (r: Result<
    Option<String>,
    InvalidPattern,
>)
    ensures
        !pattern_compiles(pattern@) ==> r is Err,
        pattern_compiles(pattern@) ==> r is Ok && (match matching_tag(
            pattern@,
            catalog(releases@),
        ) {
            Some(tag) => r->Ok_0 is Some && r->Ok_0->Some_0@ == tag,
            None => r->Ok_0 is None,
        }),
{
    let tags = get_tag_names(releases);
    match matching_flags(pattern, &tags) {
        Err(e) => Err(e),
        Ok(flags) => {
            assert(string_views(tags@).len() == tags@.len());
            proof {
                lemma_first_set(flags@);
            }
            let tag = pick_tag(&tags, &flags);
            assert(tag is Some ==> tag->Some_0@ == string_views(tags@)[first_set(flags@)->Some_0]);
            Ok(tag)
        },
    }
}

/// The mark of the platform in the name or the address of a file.
pub open spec fn platform_mark() -> Seq<char> {
    "darwin"@
}

/// Where the unpacked toolchain of an archive lies: in the install
/// directory, under the name of the archive up to its first `-darwin`.
pub open spec fn version_path_of(install_path: Seq<char>, name: Seq<char>) -> Seq<char> {
    install_path + "/"@ + split(name, "-darwin"@)[0]
}

/// Where the downloaded archive is written: the install directory, and
/// below it the file name of the asset.
pub open spec fn archive_path_of(install_path: Seq<char>, name: Seq<char>) -> Seq<char> {
    install_path + "/"@ + name
}

/// Where the archive named `name` is written.
pub fn archive_path(install_path: &str, name: &str) -> (path: String)
    ensures
        path@ == archive_path_of(install_path@, name@),
{
    let mut out: Vec<char> = Vec::new();
    push_str(&mut out, install_path);
    push_str(&mut out, "/");
    push_str(&mut out, name);
    assert(out@ =~= archive_path_of(install_path@, name@));
    string_of(&out)
}

/// Where the toolchain of the archive named `name` lies once unpacked.
pub fn version_path(install_path: &str, name: &str) -> (path: String)
    ensures
        path@ == version_path_of(install_path@, name@),
{
    let letters = chars_of(name);
    let platform = chars_of("-darwin");
    let heads = split_by(&letters, &platform);
    proof {
        lemma_split_nonempty(letters@, platform@);
    }
    assert(views(heads@).len() == heads@.len());
    assert(views(heads@)[0] == heads@[0]@);
    let mut out: Vec<char> = Vec::new();
    push_str(&mut out, install_path);
    push_str(&mut out, "/");
    push_all(&mut out, &heads[0]);
    assert(out@ =~= version_path_of(install_path@, name@));
    string_of(&out)
}

/// The archive `<stem>-darwin<rest>` is unpacked to `<install path>/<stem>`,
/// whatever the install path is, where the stem itself holds no `-darwin`:
/// for the archive of a version, `<install path>/lilypond-<version>`.
pub proof fn platform_archive_unpacks_to_its_stem(
    install_path: Seq<char>,
    stem: Seq<char>,
    rest: Seq<char>,
)
    requires
        !contains(stem, "-darwin"@),
    ensures
        version_path_of(install_path, stem + "-darwin"@ + rest) == install_path + "/"@ + stem,
{
    let pat = "-darwin"@;
    let name = stem + pat + rest;
    let n = stem.len() as int;
    reveal_strlit("-darwin");
    lemma_find_from(stem, pat, 0);
    assert(name.subrange(n, n + pat.len()) =~= pat);
    assert forall|j: int| 0 <= j < n implies !matches_at(name, pat, j) by {
        if matches_at(name, pat, j) {
            if j + pat.len() <= n {
                assert(stem.subrange(j, j + pat.len()) =~= name.subrange(j, j + pat.len()));
                assert(matches_at(stem, pat, j));
            } else {
                assert(name.subrange(j, j + pat.len())[n - j] == pat[n - j]);
                assert(name[n] == pat[0]);
            }
        }
    }
    lemma_split_from_step(name, pat, 0, n);
    assert(name.subrange(0, n) =~= stem);
}

/// Whether a file is built for the platform: its name or its address
/// holds `darwin`.
pub open spec fn names_platform(link: AssetLinkView) -> bool {
    contains(link.name, platform_mark()) || contains(link.direct_asset_url, platform_mark())
}

/// For each link, whether it is built for the platform.
pub open spec fn platform_flags(links: Seq<AssetLinkView>) -> Seq<bool> {
    Seq::new(links.len(), |i: int| names_platform(links[i]))
}

/// The file of a release that is built for the platform: the first whose
/// name or address holds `darwin`.
pub open spec fn platform_asset(links: Seq<AssetLinkView>) -> Option<AssetLinkView> {
    match first_set(platform_flags(links)) {
        Some(i) => Some(links[i]),
        None => None,
    }
}

/// The file among `links` that is built for the platform.
pub fn get_asset_link(links: &Vec<AssetLink>) -> (asset: Option<AssetLink>)
    ensures
        match platform_asset(asset_views(links@)) {
            Some(found) => asset is Some && asset->Some_0@ == found,
            None => asset is None,
        },
{
    let mut flags: Vec<bool> = Vec::new();
    let mut i: usize = 0;
    while i < links.len()
        invariant
            i <= links.len(),
            flags@.len() == i,
            forall|j: int| 0 <= j < i ==> flags@[j] == names_platform(links@[j]@),
        decreases links.len() - i,
    {
        let in_name = contains_str(links[i].name.as_str(), "darwin");
        let in_address = contains_str(links[i].direct_asset_url.as_str(), "darwin");
        flags.push(in_name || in_address);
        i += 1;
    }
    assert(flags@ =~= platform_flags(asset_views(links@)));
    proof {
        lemma_first_set(flags@);
    }
    match first_flag(&flags) {
        Some(k) => Some(
            AssetLink {
                direct_asset_url: links[k].direct_asset_url.clone(),
                name: links[k].name.clone(),
            },
        ),
        None => None,
    }
}

/// How an install ended.
#[derive(Clone, Copy, Debug, PartialEq, Eq, Structural)]
pub enum InstallOutcome {
    /// The version asked for is neither a name of a latest release nor
    /// offered by the catalog.
    Rejected,
    /// No release matches the version, or the release has no file for the
    /// platform.
    NotFound,
    /// The version's directory is there already; nothing was downloaded.
    AlreadyInstalled,
    /// The toolchain was downloaded and unpacked, and the archive removed.
    Installed,
}

impl InstallOutcome {
    /// What is printed when an install ends this way; nothing where it
    /// ends well.
    pub fn message(&self) -> (text: Option<String>)
        ensures
            match *self {
                InstallOutcome::Rejected => text is Some && text->Some_0@
                    == "invalid version specifier"@,
                InstallOutcome::NotFound => text is Some && text->Some_0@ == "No assets found."@,
                InstallOutcome::AlreadyInstalled => text is None,
                InstallOutcome::Installed => text is None,
            },
    {
        match self {
            InstallOutcome::Rejected => Some("invalid version specifier".to_owned()),
            InstallOutcome::NotFound => Some("No assets found.".to_owned()),
            InstallOutcome::AlreadyInstalled => None,
            InstallOutcome::Installed => None,
        }
    }
}

/// How far an install has come.
#[derive(Clone, Copy, Debug, PartialEq, Eq, Structural)]
pub enum InstallStage {
    /// The files of the release have been asked for.
    Locating,
    /// Whether the version's directory exists has been asked.
    Checking,
    /// The install directory is being created.
    Creating,
    /// The archive is being downloaded.
    Downloading,
    /// The archive is being unpacked.
    Unpacking,
    /// The archive is being removed.
    Cleaning,
    /// Nothing is left to do.
    Finished,
}

/// What the caller has to do next for an install.
#[derive(Debug)]
pub enum InstallAction {
    /// Get the list of files of the release from `url`.
    FetchAssetLinks { url: String },
    /// Find out whether `version_path` exists.
    CheckInstalled { version_path: String },
    /// Create the directory `install_path` with its parents.
    CreateInstallRoot { install_path: String },
    /// Download `url` to the file `file_path`.
    Download { url: String, file_path: String },
    /// Unpack the gzipped tar archive `file_path` into `install_path`.
    Unpack { file_path: String, install_path: String },
    /// Remove the archive `file_path`.
    RemoveArchive { file_path: String },
    /// Stop: the install has ended with `outcome`.
    Finish { outcome: InstallOutcome },
}

/// What happened since the last action.
#[derive(Debug)]
pub enum InstallEvent {
    /// The files of the release.
    AssetLinks { links: Vec<AssetLink> },
    /// Whether the version's directory exists.
    Presence { present: bool },
    /// The action asked for is done.
    Completed,
}

/// An action as plain values.
pub enum InstallActionView {
    FetchAssetLinks { url: Seq<char> },
    CheckInstalled { version_path: Seq<char> },
    CreateInstallRoot { install_path: Seq<char> },
    Download { url: Seq<char>, file_path: Seq<char> },
    Unpack { file_path: Seq<char>, install_path: Seq<char> },
    RemoveArchive { file_path: Seq<char> },
    Finish { outcome: InstallOutcome },
}

/// An event as plain values.
pub enum InstallEventView {
    AssetLinks { links: Seq<AssetLinkView> },
    Presence { present: bool },
    Completed,
}

impl View for InstallAction {
    type V = InstallActionView;

    open spec fn view(&self) -> InstallActionView {
        match *self {
            InstallAction::FetchAssetLinks { url } => InstallActionView::FetchAssetLinks {
                url: url@,
            },
            InstallAction::CheckInstalled { version_path } => InstallActionView::CheckInstalled {
                version_path: version_path@,
            },
            InstallAction::CreateInstallRoot {
                install_path,
            } => InstallActionView::CreateInstallRoot { install_path: install_path@ },
            InstallAction::Download { url, file_path } => InstallActionView::Download {
                url: url@,
                file_path: file_path@,
            },
            InstallAction::Unpack { file_path, install_path } => InstallActionView::Unpack {
                file_path: file_path@,
                install_path: install_path@,
            },
            InstallAction::RemoveArchive { file_path } => InstallActionView::RemoveArchive {
                file_path: file_path@,
            },
            InstallAction::Finish { outcome } => InstallActionView::Finish { outcome },
        }
    }
}

impl View for InstallEvent {
    type V = InstallEventView;

    open spec fn view(&self) -> InstallEventView {
        match *self {
            InstallEvent::AssetLinks { links } => InstallEventView::AssetLinks {
                links: asset_views(links@),
            },
            InstallEvent::Presence { present } => InstallEventView::Presence { present },
            InstallEvent::Completed => InstallEventView::Completed,
        }
    }
}

/// An install under way: how far it has come, the install directory, and
/// the address and name of the file chosen (empty until one is).
#[derive(Debug)]
pub struct Install {
    pub stage: InstallStage,
    pub install_path: String,
    pub url: String,
    pub name: String,
}

/// An install under way as plain values.
pub struct InstallView {
    pub stage: InstallStage,
    pub install_path: Seq<char>,
    pub url: Seq<char>,
    pub name: Seq<char>,
}

impl View for Install {
    type V = InstallView;

    open spec fn view(&self) -> InstallView {
        InstallView {
            stage: self.stage,
            install_path: self.install_path@,
            url: self.url@,
            name: self.name@,
        }
    }
}

/// The version an install is about: the one given, or else the globally
/// selected one.
pub open spec fn requested(version: Option<Seq<char>>, global_version: Seq<char>) -> Seq<char> {
    match version {
        Some(v) => v,
        None => global_version,
    }
}

/// How an install begins. A version that is not valid is rejected. A valid
/// one is resolved and matched against the tags of the catalog: without a
/// matching release nothing is found; with one, its files are asked for.
pub open spec fn install_start(
    version: Option<Seq<char>>,
    global_version: Seq<char>,
    cat: Seq<ReleaseView>,
    install_path: Seq<char>,
) -> Result<(InstallView, InstallActionView), InstallError> {
    let value = requested(version, global_version);
    let fresh = InstallView {
        stage: InstallStage::Finished,
        install_path,
        url: Seq::empty(),
        name: Seq::empty(),
    };
    if !valid_version(value, versions_of(cat)) {
        Ok((fresh, InstallActionView::Finish { outcome: InstallOutcome::Rejected }))
    } else {
        match resolved(value, versions_of(cat), global_version) {
            Err(error) => Err(InstallError::Version { error }),
            Ok(pattern) => if !pattern_compiles(pattern) {
                Err(InstallError::InvalidPattern)
            } else {
                match matching_tag(pattern, cat) {
                    None => Ok(
                        (fresh, InstallActionView::Finish { outcome: InstallOutcome::NotFound }),
                    ),
                    Some(tag) => Ok(
                        (
                            InstallView { stage: InstallStage::Locating, ..fresh },
                            InstallActionView::FetchAssetLinks { url: links_address(tag) },
                        ),
                    ),
                }
            },
        }
    }
}

/// How an install goes on: the state and the action that follow a state and
/// an event; `None` where the event does not answer the state's action.
/// Once the version's directory is found present, nothing is downloaded.
pub open spec fn install_step(state: InstallView, event: InstallEventView) -> Option<
    (InstallView, InstallActionView),
> {
    let file_path = archive_path_of(state.install_path, state.name);
    match (state.stage, event) {
        (InstallStage::Locating, InstallEventView::AssetLinks { links }) => match platform_asset(
            links,
        ) {
            None => Some(
                (
                    InstallView { stage: InstallStage::Finished, ..state },
                    InstallActionView::Finish { outcome: InstallOutcome::NotFound },
                ),
            ),
            Some(asset) => Some(
                (
                    InstallView {
                        stage: InstallStage::Checking,
                        install_path: state.install_path,
                        url: asset.direct_asset_url,
                        name: asset.name,
                    },
                    InstallActionView::CheckInstalled {
                        version_path: version_path_of(state.install_path, asset.name),
                    },
                ),
            ),
        },
        (InstallStage::Checking, InstallEventView::Presence { present }) => if present {
            Some(
                (
                    InstallView { stage: InstallStage::Finished, ..state },
                    InstallActionView::Finish { outcome: InstallOutcome::AlreadyInstalled },
                ),
            )
        } else {
            Some(
                (
                    InstallView { stage: InstallStage::Creating, ..state },
                    InstallActionView::CreateInstallRoot { install_path: state.install_path },
                ),
            )
        },
        (InstallStage::Creating, InstallEventView::Completed) => Some(
            (
                InstallView { stage: InstallStage::Downloading, ..state },
                InstallActionView::Download { url: state.url, file_path },
            ),
        ),
        (InstallStage::Downloading, InstallEventView::Completed) => Some(
            (
                InstallView { stage: InstallStage::Unpacking, ..state },
                InstallActionView::Unpack { file_path, install_path: state.install_path },
            ),
        ),
        (InstallStage::Unpacking, InstallEventView::Completed) => Some(
            (
                InstallView { stage: InstallStage::Cleaning, ..state },
                InstallActionView::RemoveArchive { file_path },
            ),
        ),
        (InstallStage::Cleaning, InstallEventView::Completed) => Some(
            (
                InstallView { stage: InstallStage::Finished, ..state },
                InstallActionView::Finish { outcome: InstallOutcome::Installed },
            ),
        ),
        _ => None,
    }
}

impl Install {
    /// Begins the install of `version`, or of the globally selected version
    /// where none is given, against the catalog `releases`.
    pub fn begin(
        version: &Option<String>,
        global_version: &str,
        releases: &Vec<Release>,
        install_path: &str,
    ) -> (r: Result<(Install, InstallAction), InstallError>)
        ensures
            match install_start(
                match *version {
                    Some(v) => Some(v@),
                    None => None,
                },
                global_version@,
                catalog(releases@),
                install_path@,
            ) {
                Ok((state, action)) => r is Ok && r->Ok_0.0@ == state && r->Ok_0.1@ == action,
                Err(e) => r == Err::<(Install, InstallAction), InstallError>(e),
            },
    {
        let value: String = match version {
            Some(v) => v.clone(),
            None => global_version.to_owned(),
        };
        let mut install = Install {
            stage: InstallStage::Finished,
            install_path: install_path.to_owned(),
            url: String::new(),
            name: String::new(),
        };
        if !is_valid_version(&value, releases) {
            return Ok((install, InstallAction::Finish { outcome: InstallOutcome::Rejected }));
        }
        let pattern = match parse_version(value.as_str(), releases, global_version) {
            Ok(pattern) => pattern,
            Err(error) => {
                return Err(InstallError::Version { error });
            },
        };
        match find_release_tag(pattern.as_str(), releases) {
            Err(_) => Err(InstallError::InvalidPattern),
            Ok(None) => Ok((install, InstallAction::Finish { outcome: InstallOutcome::NotFound })),
            Ok(Some(tag)) => {
                install.stage = InstallStage::Locating;
                let url = asset_links_url(tag.as_str());
                Ok((install, InstallAction::FetchAssetLinks { url }))
            },
        }
    }

    /// Takes the event that answers the last action and gives the next
    /// action; `None`, with the install unchanged, where the event does not
    /// answer it.
    pub fn advance(&mut self, event: InstallEvent) -> (action: Option<InstallAction>)
        ensures
            match install_step(old(self)@, event@) {
                Some((state, next)) => action is Some && action->Some_0@ == next && final(self)@
                    == state,
                None => action is None && final(self)@ == old(self)@,
            },
    {
        match (self.stage, event) {
            (InstallStage::Locating, InstallEvent::AssetLinks { links }) => {
                match get_asset_link(&links) {
                    None => {
                        self.stage = InstallStage::Finished;
                        Some(InstallAction::Finish { outcome: InstallOutcome::NotFound })
                    },
                    Some(asset) => {
                        let version_path = version_path(
                            self.install_path.as_str(),
                            asset.name.as_str(),
                        );
                        self.stage = InstallStage::Checking;
                        self.url = asset.direct_asset_url;
                        self.name = asset.name;
                        Some(InstallAction::CheckInstalled { version_path })
                    },
                }
            },
            (InstallStage::Checking, InstallEvent::Presence { present }) => {
                if present {
                    self.stage = InstallStage::Finished;
                    Some(InstallAction::Finish { outcome: InstallOutcome::AlreadyInstalled })
                } else {
                    self.stage = InstallStage::Creating;
                    Some(
                        InstallAction::CreateInstallRoot {
                            install_path: self.install_path.clone(),
                        },
                    )
                }
            },
            (InstallStage::Creating, InstallEvent::Completed) => {
                self.stage = InstallStage::Downloading;
                let file_path = archive_path(self.install_path.as_str(), self.name.as_str());
                Some(InstallAction::Download { url: self.url.clone(), file_path })
            },
            (InstallStage::Downloading, InstallEvent::Completed) => {
                self.stage = InstallStage::Unpacking;
                let file_path = archive_path(self.install_path.as_str(), self.name.as_str());
                Some(InstallAction::Unpack { file_path, install_path: self.install_path.clone() })
            },
            (InstallStage::Unpacking, InstallEvent::Completed) => {
                self.stage = InstallStage::Cleaning;
                let file_path = archive_path(self.install_path.as_str(), self.name.as_str());
                Some(InstallAction::RemoveArchive { file_path })
            },
            (InstallStage::Cleaning, InstallEvent::Completed) => {
                self.stage = InstallStage::Finished;
                Some(InstallAction::Finish { outcome: InstallOutcome::Installed })
            },
            _ => None,
        }
    }
}

/// A version that is installed already is not downloaded again. Once the
/// files of the release are known and one of them is for the platform, the
/// install asks whether the directory of that file's version exists below
/// the install directory; where it does, the install ends as already
/// installed, and whatever happens then, no action follows.
pub proof fn installed_version_is_not_downloaded(
    state: InstallView,
    links: Seq<AssetLinkView>,
    event: InstallEventView,
)
    requires
        state.stage == InstallStage::Locating,
        platform_asset(links) is Some,
    ensures
        ({
            let asset = platform_asset(links)->Some_0;
            let checking = InstallView {
                stage: InstallStage::Checking,
                install_path: state.install_path,
                url: asset.direct_asset_url,
                name: asset.name,
            };
            let finished = InstallView { stage: InstallStage::Finished, ..checking };
            &&& install_step(state, InstallEventView::AssetLinks { links }) == Some(
                (
                    checking,
                    InstallActionView::CheckInstalled {
                        version_path: version_path_of(state.install_path, asset.name),
                    },
                ),
            )
            &&& install_step(checking, InstallEventView::Presence { present: true }) == Some(
                (
                    finished,
                    InstallActionView::Finish { outcome: InstallOutcome::AlreadyInstalled },
                ),
            )
            &&& install_step(finished, event) is None
        }),
{
}

/// A version that is given is installed without the store of the global
/// version: but for the name `global`, the install begins in the same way
/// whatever the store holds.
pub proof fn given_version_needs_no_store(
    version: Seq<char>,
    one: Seq<char>,
    other: Seq<char>,
    cat: Seq<ReleaseView>,
    install_path: Seq<char>,
)
    requires
        version != global_name(),
    ensures
        install_start(Some(version), one, cat, install_path) == install_start(
            Some(version),
            other,
            cat,
            install_path,
        ),
{
}

/// Whether the install of `version` reads the store of the global version:
/// no version is given, or the one given is the name `global`.
pub fn needs_global_version(version: &Option<String>) -> (needed: bool)
    ensures
        needed == (match *version {
            Some(given) => given@ == global_name(),
            None => true,
        }),
{
    match version {
        Some(given) => equal_str(given.as_str(), "global"),
        None => true,
    }
}

/// What is printed before an archive is downloaded from `url`.
pub fn downloading_message(url: &str) -> (text: String)
    ensures
        text@ == "Downloading "@ + url@ + "..."@,
{
    let mut out: Vec<char> = Vec::new();
    push_str(&mut out, "Downloading ");
    push_str(&mut out, url);
    push_str(&mut out, "...");
    string_of(&out)
}

/// What is printed before the archive named `name` is unpacked.
pub fn unpacking_message(name: &str) -> (text: String)
    ensures
        text@ == "Unpacking "@ + name@ + "..."@,
{
    let mut out: Vec<char> = Vec::new();
    push_str(&mut out, "Unpacking ");
    push_str(&mut out, name);
    push_str(&mut out, "...");
    string_of(&out)
}

} // verus!
