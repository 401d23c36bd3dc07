//! Fetching the dependencies: where they come from, which ZLUDA build is
//! taken, and how a download falls back from HTTP to PowerShell.
use vstd::prelude::*;
use crate::json::{asset_view, asset_views, json_document, listing_assets, opt_view, release_assets, ReleaseAsset};
use crate::text::{append_str, chars_of, contains_str, ends_with_str, has_substr, has_suffix, owned, string_of};

verus! {

/// ZLUDA build used when the release listing offers none.
pub const ZLUDA_URL: &'static str =
    "https://github.com/lshqqytiger/ZLUDA/releases/download/v6/ZLUDA-windows-amd64.zip";

/// Chocolate DOOM engine.
pub const DOOM_URL: &'static str =
    "https://github.com/chocolate-doom/chocolate-doom/releases/download/chocolate-doom-3.0.1/chocolate-doom-3.0.1-win32.zip";

/// Shareware DOOM data file.
pub const WAD_URL: &'static str = "https://distro.ibiblio.org/slitaz/sources/packages/d/doom1.wad";

/// Background music track.
pub const MUSIC_URL: &'static str = "https://www.soundhelix.com/examples/mp3/SoundHelix-Song-4.mp3";

/// The `hipify-perl` translator.
pub const HIPIFY_URL: &'static str =
    "https://raw.githubusercontent.com/ROCm/HIPIFY/rocm-6.1.0/bin/hipify-perl";

/// Portable Strawberry Perl.
pub const PERL_URL: &'static str =
    "https://github.com/StrawberryPerl/Perl-Dist-Strawberry/releases/download/SP_54221_64bit/strawberry-perl-5.42.2.1-64bit-portable.zip";

/// AMD HIP SDK installer.
pub const AMD_HIP_SDK_URL: &'static str =
    "https://download.amd.com/developer/eula/rocm-hub/AMD-Software-PRO-Edition-24.Q3-Win10-Win11-For-HIP.exe";

/// The release listing that is searched for a ZLUDA build.
pub const ZLUDA_RELEASES_URL: &'static str = "https://api.github.com/repos/vosen/zluda/releases";

/// User agent sent with every HTTP request.
pub const USER_AGENT: &'static str = "GhostEnv/9.1";

// ---------------------------------------------------------------------
// Choosing the ZLUDA build
// ---------------------------------------------------------------------

/// An asset (name, download address) is a Windows build when its name
/// mentions `windows` and it is a `.zip` archive.
pub open spec fn is_windows_zip(a: (Option<Seq<char>>, Option<Seq<char>>)) -> bool {
    a.0 matches Some(n) && has_substr(n, "windows"@) && has_suffix(n, ".zip"@)
}

/// Index of the first Windows build among `s` (`s.len()` if there is none).
pub open spec fn first_windows_zip(s: Seq<(Option<Seq<char>>, Option<Seq<char>>)>) -> int
    decreases s.len(),
{
    if s.len() == 0 {
        0
    } else if is_windows_zip(s[0]) {
        0
    } else {
        1 + first_windows_zip(s.drop_first())
    }
}

/// The address of the ZLUDA build to download among the assets `s`: that
/// of the first Windows build, or the pinned build when there is none;
/// `None` when the first Windows build has no download address.
pub open spec fn zluda_choice(s: Seq<(Option<Seq<char>>, Option<Seq<char>>)>) -> Option<Seq<char>> {
    let k = first_windows_zip(s);
    if k == s.len() {
        Some(ZLUDA_URL@)
    } else {
        s[k].1
    }
}

/// Whether an asset is a Windows build.
pub fn asset_is_windows_zip(a: &ReleaseAsset) -> (r: bool)
    ensures
        r == is_windows_zip(asset_view(*a)),
{
    match &a.name {
        Some(n) => {
            let v = chars_of(n.as_str());
            contains_str(&v, "windows") && ends_with_str(&v, ".zip")
        },
        None => false,
    }
}

proof fn lemma_first_windows_zip(s: Seq<(Option<Seq<char>>, Option<Seq<char>>)>, k: int)
    requires
        0 <= k <= s.len(),
        forall|j: int| 0 <= j < k ==> !is_windows_zip(#[trigger] s[j]),
        k == s.len() || is_windows_zip(s[k]),
    ensures
        first_windows_zip(s) == k,
    decreases k,
{
    if k > 0 {
        assert forall|j: int| 0 <= j < k - 1 implies !is_windows_zip(#[trigger] s.drop_first()[j]) by {
            assert(s.drop_first()[j] == s[j + 1]);
        }
        if k < s.len() {
            assert(s.drop_first()[k - 1] == s[k]);
        }
        lemma_first_windows_zip(s.drop_first(), k - 1);
    }
}

/// The ZLUDA build taken is the first asset whose name mentions `windows`
/// and ends in `.zip`, with its download address as it is; when no asset
/// is such a build, the pinned release is taken.
pub proof fn lemma_zluda_choice(s: Seq<(Option<Seq<char>>, Option<Seq<char>>)>, k: int)
    requires
        0 <= k <= s.len(),
        forall|j: int| 0 <= j < k ==> !is_windows_zip(#[trigger] s[j]),
    ensures
        k < s.len() && (s[k].0 matches Some(n) && has_substr(n, "windows"@) && has_suffix(n, ".zip"@))
            ==> zluda_choice(s) == s[k].1,
        k == s.len() ==> zluda_choice(s) == Some(
            "https://github.com/lshqqytiger/ZLUDA/releases/download/v6/ZLUDA-windows-amd64.zip"@,
        ),
{
    if k == s.len() || is_windows_zip(s[k]) {
        lemma_first_windows_zip(s, k);
    }
}

/// The address of the ZLUDA build to download: that of the first Windows
/// build among the assets, or the pinned build when there is none.
/// `None` when the first Windows build has no download address; the
/// program cannot go on then.
pub fn zluda_download_url(assets: &Vec<ReleaseAsset>) -> (r: Option<String>)
    ensures
        opt_view(r) == zluda_choice(asset_views(assets@)),
{
    let ghost views = asset_views(assets@);
    let mut i: usize = 0;
    while i < assets.len()
        invariant
            i <= assets.len(),
            views == asset_views(assets@),
            forall|j: int| 0 <= j < i ==> !is_windows_zip(#[trigger] views[j]),
        decreases assets.len() - i,
    {
        if asset_is_windows_zip(&assets[i]) {
            proof {
                lemma_first_windows_zip(views, i as int);
            }
            return match &assets[i].download_url {
                Some(u) => Some(owned(u.as_str())),
                None => None,
            };
        }
        i = i + 1;
    }
    proof {
        lemma_first_windows_zip(views, assets.len() as int);
    }
    Some(owned(ZLUDA_URL))
}

/// The address of the ZLUDA build to download, from the text of the
/// release listing.
pub fn zluda_url_from_listing(listing: &str) -> (r: Option<String>)
    ensures
        opt_view(r) == zluda_choice(listing_assets(json_document(listing@))),
{
    let assets = release_assets(listing);
    zluda_download_url(&assets)
}

/// ZLUDA counts as installed when its CUDA DLL or its launcher was found.
pub fn zluda_installed(dll_found: bool, launcher_found: bool) -> (r: bool)
    ensures
        r == (dll_found || launcher_found),
{
    dll_found || launcher_found
}

// ---------------------------------------------------------------------
// Downloading with a fallback
// ---------------------------------------------------------------------

/// How far a download has got.
#[derive(Clone, Copy, Debug, PartialEq, Eq, Structural)]
pub enum DownloadStage {
    /// Nothing tried yet.
    Start,
    /// The HTTP client has been tried.
    AfterHttp,
    /// PowerShell has been tried.
    AfterShell,
}

/// What a download does next.
#[derive(Clone, Copy, Debug, PartialEq, Eq, Structural)]
pub enum DownloadAction {
    /// The file is already there: done, successfully, without a word.
    AlreadyPresent,
    /// Announce the download and fetch the file with the HTTP client.
    FetchWithHttp,
    /// The HTTP client got the file: done, successfully.
    FetchedWithHttp,
    /// Delete what the HTTP client left and fetch the file with PowerShell.
    FetchWithShell,
    /// PowerShell got the file: done, successfully.
    FetchedWithShell,
    /// Neither got the file: done, with an error.
    Failed,
}

/// The next step of a download, given what the last attempt reported and
/// whether the destination file exists now. A fresh download fetches the
/// file even when a copy is already there.
pub open spec fn download_step_of(stage: DownloadStage, attempt_ok: bool, dest_exists: bool, fresh: bool) -> DownloadAction {
    match stage {
        DownloadStage::Start => if dest_exists && !fresh {
            DownloadAction::AlreadyPresent
        } else {
            DownloadAction::FetchWithHttp
        },
        DownloadStage::AfterHttp => if attempt_ok && dest_exists {
            DownloadAction::FetchedWithHttp
        } else {
            DownloadAction::FetchWithShell
        },
        DownloadStage::AfterShell => if attempt_ok && dest_exists {
            DownloadAction::FetchedWithShell
        } else {
            DownloadAction::Failed
        },
    }
}

/// Decides the next step of a download.
pub fn download_step(stage: DownloadStage, attempt_ok: bool, dest_exists: bool, fresh: bool) -> (r: DownloadAction)
    ensures
        r == download_step_of(stage, attempt_ok, dest_exists, fresh),
{
    match stage {
        DownloadStage::Start => if dest_exists && !fresh {
            DownloadAction::AlreadyPresent
        } else {
            DownloadAction::FetchWithHttp
        },
        DownloadStage::AfterHttp => if attempt_ok && dest_exists {
            DownloadAction::FetchedWithHttp
        } else {
            DownloadAction::FetchWithShell
        },
        DownloadStage::AfterShell => if attempt_ok && dest_exists {
            DownloadAction::FetchedWithShell
        } else {
            DownloadAction::Failed
        },
    }
}

/// Whether a download that stopped with this action succeeded.
pub open spec fn download_succeeded(a: DownloadAction) -> bool {
    a == DownloadAction::AlreadyPresent || a == DownloadAction::FetchedWithHttp || a
        == DownloadAction::FetchedWithShell
}

/// The download ladder: an existing file is taken as it is unless a fresh
/// download is asked for; otherwise the HTTP client is tried first, then
/// PowerShell if the HTTP client did not produce the file, and the download
/// fails when PowerShell did not produce it either.
pub proof fn lemma_download_ladder(ok: bool, present: bool, fresh: bool)
    ensures
        present && !fresh ==> download_step_of(DownloadStage::Start, ok, present, fresh)
            == DownloadAction::AlreadyPresent,
        !present || fresh ==> download_step_of(DownloadStage::Start, ok, present, fresh)
            == DownloadAction::FetchWithHttp,
        ok && present ==> download_step_of(DownloadStage::AfterHttp, ok, present, fresh)
            == DownloadAction::FetchedWithHttp,
        !(ok && present) ==> download_step_of(DownloadStage::AfterHttp, ok, present, fresh)
            == DownloadAction::FetchWithShell,
        ok && present ==> download_step_of(DownloadStage::AfterShell, ok, present, fresh)
            == DownloadAction::FetchedWithShell,
        !(ok && present) ==> download_step_of(DownloadStage::AfterShell, ok, present, fresh)
            == DownloadAction::Failed,
{
}

/// A download never reports success unless the file exists at that moment,
/// it tries PowerShell only after the HTTP client failed to produce it, and
/// a fresh download never takes an existing copy for the result.
pub proof fn lemma_download_success_needs_file(stage: DownloadStage, ok: bool, exists: bool, fresh: bool)
    ensures
        download_succeeded(download_step_of(stage, ok, exists, fresh)) ==> exists,
        download_step_of(stage, ok, exists, fresh) == DownloadAction::FetchWithShell ==> stage
            == DownloadStage::AfterHttp && !(ok && exists),
        fresh ==> download_step_of(stage, ok, exists, fresh) != DownloadAction::AlreadyPresent,
{
}

/// The PowerShell command that downloads `url` to `dest` over TLS 1.2.
pub open spec fn shell_download_command(url: Seq<char>, dest: Seq<char>) -> Seq<char> {
    "[Net.ServicePointManager]::SecurityProtocol = [Net.SecurityProtocolType]::Tls12; Invoke-WebRequest -Uri '"@
        + url + "' -OutFile '"@ + dest + "' -UseBasicParsing"@
}

/// Builds the PowerShell download command.
pub fn powershell_download_command(url: &str, dest: &str) -> (r: String)
    ensures
        r@ == shell_download_command(url@, dest@),
{
    let mut v = chars_of(
        "[Net.ServicePointManager]::SecurityProtocol = [Net.SecurityProtocolType]::Tls12; Invoke-WebRequest -Uri '",
    );
    append_str(&mut v, url);
    append_str(&mut v, "' -OutFile '");
    append_str(&mut v, dest);
    append_str(&mut v, "' -UseBasicParsing");
    string_of(&v)
}

/// The PowerShell command that unpacks the archive `zip` into `dest`.
pub open spec fn shell_expand_command(zip: Seq<char>, dest: Seq<char>) -> Seq<char> {
    "Expand-Archive -Path '"@ + zip + "' -DestinationPath '"@ + dest + "' -Force"@
}

/// Builds the PowerShell command that unpacks an archive.
pub fn powershell_expand_command(zip: &str, dest: &str) -> (r: String)
    ensures
        r@ == shell_expand_command(zip@, dest@),
{
    let mut v = chars_of("Expand-Archive -Path '");
    append_str(&mut v, zip);
    append_str(&mut v, "' -DestinationPath '");
    append_str(&mut v, dest);
    append_str(&mut v, "' -Force");
    string_of(&v)
}




// ---------------------------------------------------------------------
// The dependency plan
// ---------------------------------------------------------------------

/// The components that the bootstrapper installs, in installation order.
#[derive(Clone, Copy, Debug, PartialEq, Eq, Structural)]
pub enum Component {
    /// The ZLUDA translation layer.
    Zluda,
    /// The Chocolate DOOM engine.
    DoomEngine,
    /// The DOOM data file.
    DoomWad,
    /// The background music track.
    Music,
    /// The HIPIFY translator script.
    Hipify,
    /// Strawberry Perl.
    Perl,
    /// The AMD HIP SDK installer.
    HipSdk,
}

/// What is already installed.
#[derive(Clone, Copy, Debug, PartialEq, Eq, Structural)]
pub struct Presence {
    /// ZLUDA's CUDA DLL or launcher was found.
    pub zluda: bool,
    /// The DOOM engine was found.
    pub doom_engine: bool,
    /// The DOOM data file exists.
    pub doom_wad: bool,
    /// The music track exists.
    pub music: bool,
    /// The HIPIFY script exists.
    pub hipify: bool,
    /// `perl -v` runs.
    pub perl_runs: bool,
    /// A downloaded Perl was found.
    pub perl_local: bool,
    /// The HIP SDK installer exists.
    pub hip_sdk: bool,
}

/// Whether a component is fetched: always when a fresh download of all
/// components is asked for, otherwise when it is missing (Perl: when it
/// neither runs nor was downloaded before).
pub open spec fn is_wanted(c: Component, p: Presence, fresh: bool) -> bool {
    fresh || match c {
        Component::Zluda => !p.zluda,
        Component::DoomEngine => !p.doom_engine,
        Component::DoomWad => !p.doom_wad,
        Component::Music => !p.music,
        Component::Hipify => !p.hipify,
        Component::Perl => !p.perl_runs && !p.perl_local,
        Component::HipSdk => !p.hip_sdk,
    }
}

/// `seq![c]` when `c` is wanted, empty otherwise.
pub open spec fn if_wanted(c: Component, p: Presence, fresh: bool) -> Seq<Component> {
    if is_wanted(c, p, fresh) {
        seq![c]
    } else {
        seq![]
    }
}

/// The components to fetch, in installation order.
pub open spec fn plan_of(p: Presence, fresh: bool) -> Seq<Component> {
    if_wanted(Component::Zluda, p, fresh) + if_wanted(Component::DoomEngine, p, fresh) + if_wanted(
        Component::DoomWad,
        p,
        fresh,
    ) + if_wanted(Component::Music, p, fresh) + if_wanted(Component::Hipify, p, fresh) + if_wanted(
        Component::Perl,
        p,
        fresh,
    ) + if_wanted(Component::HipSdk, p, fresh)
}

fn wanted(c: Component, p: &Presence, fresh: bool) -> (r: bool)
    ensures
        r == is_wanted(c, *p, fresh),
{
    fresh || match c {
        Component::Zluda => !p.zluda,
        Component::DoomEngine => !p.doom_engine,
        Component::DoomWad => !p.doom_wad,
        Component::Music => !p.music,
        Component::Hipify => !p.hipify,
        Component::Perl => !p.perl_runs && !p.perl_local,
        Component::HipSdk => !p.hip_sdk,
    }
}

fn push_if_wanted(plan: &mut Vec<Component>, c: Component, p: &Presence, fresh: bool)
    ensures
        final(plan)@ == old(plan)@ + if_wanted(c, *p, fresh),
{
    if wanted(c, p, fresh) {
        plan.push(c);
    }
    assert(final(plan)@ =~= old(plan)@ + if_wanted(c, *p, fresh));
}

/// The components to fetch; `fresh` asks for all of them regardless of
/// what is installed.
pub fn dependency_plan(p: &Presence, fresh: bool) -> (r: Vec<Component>)
    ensures
        r@ == plan_of(*p, fresh),
{
    let mut plan: Vec<Component> = Vec::new();
    push_if_wanted(&mut plan, Component::Zluda, p, fresh);
    push_if_wanted(&mut plan, Component::DoomEngine, p, fresh);
    push_if_wanted(&mut plan, Component::DoomWad, p, fresh);
    push_if_wanted(&mut plan, Component::Music, p, fresh);
    push_if_wanted(&mut plan, Component::Hipify, p, fresh);
    push_if_wanted(&mut plan, Component::Perl, p, fresh);
    push_if_wanted(&mut plan, Component::HipSdk, p, fresh);
    assert(plan@ =~= plan_of(*p, fresh));
    plan
}

/// A fresh plan fetches every component, in installation order.
pub proof fn lemma_fresh_plan_is_complete(p: Presence)
    ensures
        plan_of(p, true) == seq![
            Component::Zluda,
            Component::DoomEngine,
            Component::DoomWad,
            Component::Music,
            Component::Hipify,
            Component::Perl,
            Component::HipSdk,
        ],
{
    assert(plan_of(p, true) =~= seq![
        Component::Zluda,
        Component::DoomEngine,
        Component::DoomWad,
        Component::Music,
        Component::Hipify,
        Component::Perl,
        Component::HipSdk,
    ]);
}

/// What the plan holds: each component exactly when a fresh download is
/// asked for or that component itself is missing, independently of the
/// others; Perl when it neither runs nor was downloaded before.
pub proof fn lemma_plan_contents(p: Presence, fresh: bool)
    ensures
        plan_of(p, fresh).contains(Component::Zluda) <==> fresh || !p.zluda,
        plan_of(p, fresh).contains(Component::DoomEngine) <==> fresh || !p.doom_engine,
        plan_of(p, fresh).contains(Component::DoomWad) <==> fresh || !p.doom_wad,
        plan_of(p, fresh).contains(Component::Music) <==> fresh || !p.music,
        plan_of(p, fresh).contains(Component::Hipify) <==> fresh || !p.hipify,
        plan_of(p, fresh).contains(Component::Perl) <==> fresh || (!p.perl_runs && !p.perl_local),
        plan_of(p, fresh).contains(Component::HipSdk) <==> fresh || !p.hip_sdk,
{
    broadcast use vstd::seq_lib::lemma_seq_concat_contains_all_elements;

    assert forall|c: Component, x: Component| #[trigger] if_wanted(c, p, fresh).contains(x) <==> (
    is_wanted(c, p, fresh) && c == x) by {
        if is_wanted(c, p, fresh) {
            assert(if_wanted(c, p, fresh)[0] == c);
        }
    }
}

/// The folders of the Ghost installation.
#[derive(Clone, Copy, Debug, PartialEq, Eq, Structural)]
pub enum GhostFolder {
    /// `.ghost` itself.
    Base,
    /// `.ghost/zluda`.
    Zluda,
    /// `.ghost/doom`.
    Doom,
    /// `.ghost/music`.
    Music,
    /// `.ghost/hipify`.
    Hipify,
    /// `.ghost/perl`.
    Perl,
}

/// What happens to a downloaded file.
#[derive(Clone, Copy, Debug, PartialEq, Eq, Structural)]
pub enum Unpack {
    /// Nothing: the file is used as it is.
    Keep,
    /// Unzip into the folder, lift the contents of sub-folders into it and
    /// delete the archive.
    ExtractAndFlatten,
    /// Unpack with PowerShell's `Expand-Archive`, deleting the archive when that succeeds.
    ExpandWithShell,
    /// Start the installer.
    LaunchInstaller,
}

/// How a component is fetched: the message shown, where it comes from
/// (`None`: from the ZLUDA release listing), the folder and file it is
/// saved as, what happens to it afterwards, and which files found below
/// the folder are copied to its top.
pub struct ComponentRecipe {
    pub message: &'static str,
    pub url: Option<&'static str>,
    pub folder: GhostFolder,
    pub file_name: &'static str,
    pub unpack: Unpack,
    pub promoted: Vec<&'static str>,
}

/// The recipe of each component.
pub open spec fn recipe_matches(c: Component, r: ComponentRecipe) -> bool {
    match c {
        Component::Zluda => r.message@ == "[1/7] Downloading ZLUDA Engine..."@ && r.url is None
            && r.folder == GhostFolder::Zluda && r.file_name@ == "zluda.zip"@ && r.unpack
            == Unpack::ExtractAndFlatten && r.promoted@.len() == 2 && r.promoted@[0]@
            == "zluda.exe"@ && r.promoted@[1]@ == "nvcuda.dll"@,
        Component::DoomEngine => r.message@ == "[2/7] Downloading DOOM Engine..."@ && r.url
            == Some(DOOM_URL) && r.folder == GhostFolder::Doom && r.file_name@ == "doom.zip"@
            && r.unpack == Unpack::ExtractAndFlatten && r.promoted@.len() == 1 && r.promoted@[0]@
            == "chocolate-doom.exe"@,
        Component::DoomWad => r.message@ == "[3/7] Downloading DOOM WAD..."@ && r.url == Some(
            WAD_URL,
        ) && r.folder == GhostFolder::Doom && r.file_name@ == "DOOM1.WAD"@ && r.unpack
            == Unpack::Keep && r.promoted@.len() == 0,
        Component::Music => r.message@ == "[4/7] Downloading Music..."@ && r.url == Some(MUSIC_URL)
            && r.folder == GhostFolder::Music && r.file_name@ == "Ghost_Track_4.mp3"@ && r.unpack
            == Unpack::Keep && r.promoted@.len() == 0,
        Component::Hipify => r.message@ == "[5/7] Downloading HIPIFY..."@ && r.url == Some(
            HIPIFY_URL,
        ) && r.folder == GhostFolder::Hipify && r.file_name@ == "hipify-perl"@ && r.unpack
            == Unpack::Keep && r.promoted@.len() == 0,
        Component::Perl => r.message@ == "[6/7] Downloading Strawberry Perl..."@ && r.url == Some(
            PERL_URL,
        ) && r.folder == GhostFolder::Perl && r.file_name@ == "perl.zip"@ && r.unpack
            == Unpack::ExpandWithShell && r.promoted@.len() == 0,
        Component::HipSdk => r.message@ == "[7/7] Downloading AMD HIP SDK..."@ && r.url == Some(
            AMD_HIP_SDK_URL,
        ) && r.folder == GhostFolder::Base && r.file_name@ == "AMD_HIP_SDK.exe"@ && r.unpack
            == Unpack::LaunchInstaller && r.promoted@.len() == 0,
    }
}

/// How a component is fetched.
pub fn recipe(c: Component) -> (r: ComponentRecipe)
    ensures
        recipe_matches(c, r),
{
    match c {
        Component::Zluda => {
            let mut promoted: Vec<&'static str> = Vec::new();
            promoted.push("zluda.exe");
            promoted.push("nvcuda.dll");
            ComponentRecipe {
                message: "[1/7] Downloading ZLUDA Engine...",
                url: None,
                folder: GhostFolder::Zluda,
                file_name: "zluda.zip",
                unpack: Unpack::ExtractAndFlatten,
                promoted,
            }
        },
        Component::DoomEngine => {
            let mut promoted: Vec<&'static str> = Vec::new();
            promoted.push("chocolate-doom.exe");
            ComponentRecipe {
                message: "[2/7] Downloading DOOM Engine...",
                url: Some(DOOM_URL),
                folder: GhostFolder::Doom,
                file_name: "doom.zip",
                unpack: Unpack::ExtractAndFlatten,
                promoted,
            }
        },
        Component::DoomWad => ComponentRecipe {
            message: "[3/7] Downloading DOOM WAD...",
            url: Some(WAD_URL),
            folder: GhostFolder::Doom,
            file_name: "DOOM1.WAD",
            unpack: Unpack::Keep,
            promoted: Vec::new(),
        },
        Component::Music => ComponentRecipe {
            message: "[4/7] Downloading Music...",
            url: Some(MUSIC_URL),
            folder: GhostFolder::Music,
            file_name: "Ghost_Track_4.mp3",
            unpack: Unpack::Keep,
            promoted: Vec::new(),
        },
        Component::Hipify => ComponentRecipe {
            message: "[5/7] Downloading HIPIFY...",
            url: Some(HIPIFY_URL),
            folder: GhostFolder::Hipify,
            file_name: "hipify-perl",
            unpack: Unpack::Keep,
            promoted: Vec::new(),
        },
        Component::Perl => ComponentRecipe {
            message: "[6/7] Downloading Strawberry Perl...",
            url: Some(PERL_URL),
            folder: GhostFolder::Perl,
            file_name: "perl.zip",
            unpack: Unpack::ExpandWithShell,
            promoted: Vec::new(),
        },
        Component::HipSdk => ComponentRecipe {
            message: "[7/7] Downloading AMD HIP SDK...",
            url: Some(AMD_HIP_SDK_URL),
            folder: GhostFolder::Base,
            file_name: "AMD_HIP_SDK.exe",
            unpack: Unpack::LaunchInstaller,
            promoted: Vec::new(),
        },
    }
}

} // verus!
