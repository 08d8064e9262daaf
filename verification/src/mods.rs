//! What the mod portal tells about a mod, and what the bot shows of it.

use crate::embed::{Color, Embed, EmbedView};
use crate::text::{decimal, decimal_string};
use crate::versions::{latest, latest_version};
use vstd::prelude::*;
use vstd::string::*;

verus! {

/// Where the mod portal is.
pub const MODPORTAL_URL: &'static str = "https://mods.factorio.com";

/// Where the mod portal keeps its pictures.
pub const MODPORTAL_DATA_URL: &'static str = "https://mods-data.factorio.com";

/// The thumbnail that the mod portal gives to mods without one.
pub const BLANK_THUMBNAIL: &'static str = "/assets/.thumb.png";

/// The color of an embed that reports a failure.
pub const FAILED_EMBED_COLOR: Color = (255, 10, 10);

/// The color of an embed that shows a mod.
pub const SUCCESS_EMBED_COLOR: Color = (47, 137, 197);

/// That a mod could not be shown.
#[derive(Debug, Clone, Copy, PartialEq, Eq, Structural)]
pub enum ModError {
    /// The mod portal knows no such mod.
    NotFound,
    /// The mod portal could not be asked, or its answer could not be read.
    Failed,
}

impl ModError {
    /// The words that describe the error.
    pub open spec fn spec_message(self) -> Seq<char> {
        match self {
            ModError::NotFound => "Mod not found"@,
            ModError::Failed => "Mod portal request failed"@,
        }
    }

    /// Describes the error in words.
    pub fn message(&self) -> (text: String)
        ensures
            text@ == self.spec_message(),
    {
        match self {
            ModError::NotFound => String::from_str("Mod not found"),
            ModError::Failed => String::from_str("Mod portal request failed"),
        }
    }
}

/// One release of a mod, as the mod portal lists it.
#[derive(Debug, Clone, PartialEq, Eq)]
pub struct ModRelease {
    pub version: String,
    /// The version of the game that the release is made for.
    pub factorio_version: String,
    pub released_at: String,
    /// The path of the download on the mod portal.
    pub download_url: String,
}

/// Mathematical value of a [`ModRelease`].
pub ghost struct ModReleaseView {
    pub version: Seq<char>,
    pub factorio_version: Seq<char>,
    pub released_at: Seq<char>,
    pub download_url: Seq<char>,
}

impl View for ModRelease {
    type V = ModReleaseView;

    open spec fn view(&self) -> ModReleaseView {
        ModReleaseView {
            version: self.version@,
            factorio_version: self.factorio_version@,
            released_at: self.released_at@,
            download_url: self.download_url@,
        }
    }
}

impl DeepView for ModRelease {
    type V = ModReleaseView;

    open spec fn deep_view(&self) -> ModReleaseView {
        self@
    }
}

/// What the mod portal tells about a mod.
#[derive(Debug, Clone, PartialEq, Eq)]
pub struct ModInfo {
    pub releases: Vec<ModRelease>,
    pub thumbnail: Option<String>,
    pub title: String,
    pub summary: String,
    pub downloads_count: usize,
    pub owner: String,
}

/// Mathematical value of a [`ModInfo`].
pub ghost struct ModInfoView {
    pub releases: Seq<ModReleaseView>,
    pub thumbnail: Option<Seq<char>>,
    pub title: Seq<char>,
    pub summary: Seq<char>,
    pub downloads_count: usize,
    pub owner: Seq<char>,
}

impl View for ModInfo {
    type V = ModInfoView;

    open spec fn view(&self) -> ModInfoView {
        ModInfoView {
            releases: self.releases.deep_view(),
            thumbnail: self.thumbnail.deep_view(),
            title: self.title@,
            summary: self.summary@,
            downloads_count: self.downloads_count,
            owner: self.owner@,
        }
    }
}

/// Where a release can be downloaded.
#[derive(Debug, Clone, PartialEq, Eq)]
pub struct ModDownload {
    pub official: String,
    pub launcher: Option<String>,
}

/// Mathematical value of a [`ModDownload`].
pub ghost struct ModDownloadView {
    pub official: Seq<char>,
    pub launcher: Option<Seq<char>>,
}

impl View for ModDownload {
    type V = ModDownloadView;

    open spec fn view(&self) -> ModDownloadView {
        ModDownloadView { official: self.official@, launcher: self.launcher.deep_view() }
    }
}

impl DeepView for ModDownload {
    type V = ModDownloadView;

    open spec fn deep_view(&self) -> ModDownloadView {
        self@
    }
}

/// What the bot shows of a mod.
#[derive(Debug, PartialEq, Eq)]
pub struct ModData {
    pub title: String,
    pub description: String,
    pub url: String,
    /// When the latest release came out, as the mod portal writes it.
    pub timestamp: Option<String>,
    pub color: Color,
    pub thumbnail_url: Option<String>,
    pub game_version: Option<String>,
    pub download: Option<ModDownload>,
    pub latest_version: Option<String>,
    pub downloads_count: usize,
    pub author: String,
}

/// Mathematical value of a [`ModData`].
pub ghost struct ModDataView {
    pub title: Seq<char>,
    pub description: Seq<char>,
    pub url: Seq<char>,
    pub timestamp: Option<Seq<char>>,
    pub color: Color,
    pub thumbnail_url: Option<Seq<char>>,
    pub game_version: Option<Seq<char>>,
    pub download: Option<ModDownloadView>,
    pub latest_version: Option<Seq<char>>,
    pub downloads_count: usize,
    pub author: Seq<char>,
}

impl View for ModData {
    type V = ModDataView;

    open spec fn view(&self) -> ModDataView {
        ModDataView {
            title: self.title@,
            description: self.description@,
            url: self.url@,
            timestamp: self.timestamp.deep_view(),
            color: self.color,
            thumbnail_url: self.thumbnail_url.deep_view(),
            game_version: self.game_version.deep_view(),
            download: self.download.deep_view(),
            latest_version: self.latest_version.deep_view(),
            downloads_count: self.downloads_count,
            author: self.author@,
        }
    }
}

/// The page of the mod `mod_name` on the mod portal.
pub open spec fn mod_page_url(mod_name: Seq<char>) -> Seq<char> {
    MODPORTAL_URL@ + "/mod/"@ + mod_name
}

/// Where the mod portal answers questions about the mod `mod_name`.
pub open spec fn mod_api_url(mod_name: Seq<char>) -> Seq<char> {
    MODPORTAL_URL@ + "/api/mods/"@ + mod_name
}

/// Where the mod portal searches for `mod_name`.
pub open spec fn mod_query_url(mod_name: Seq<char>) -> Seq<char> {
    MODPORTAL_URL@ + "/query/"@ + mod_name
}

/// The picture to show for a mod whose thumbnail the mod portal gives as
/// `thumbnail`: none for no thumbnail and for the blank one.
pub open spec fn thumbnail_url(thumbnail: Option<Seq<char>>) -> Option<Seq<char>> {
    match thumbnail {
        Some(path) => if path != BLANK_THUMBNAIL@ {
            Some(MODPORTAL_DATA_URL@ + path)
        } else {
            None
        },
        None => None,
    }
}

/// The versions of `releases`, in their order.
pub open spec fn versions_of(releases: Seq<ModReleaseView>) -> Seq<Seq<char>> {
    Seq::new(releases.len(), |i: int| releases[i].version)
}

impl ModDataView {
    /// What is shown of a mod of which only this much is known.
    pub open spec fn basic(
        title: Seq<char>,
        description: Seq<char>,
        url: Seq<char>,
        color: Color,
        downloads_count: usize,
        author: Seq<char>,
    ) -> ModDataView {
        ModDataView {
            title,
            description,
            url,
            color,
            downloads_count,
            author,
            timestamp: None,
            thumbnail_url: None,
            game_version: None,
            download: None,
            latest_version: None,
        }
    }

    /// This with what the release `release` adds: its date, the game's
    /// version, its download on the mod portal, and its version.
    pub open spec fn with_release(self, release: ModReleaseView) -> ModDataView {
        ModDataView {
            timestamp: Some(release.released_at),
            game_version: Some(release.factorio_version),
            download: Some(
                ModDownloadView { official: MODPORTAL_URL@ + release.download_url, launcher: None },
            ),
            latest_version: Some(release.version),
            ..self
        }
    }
}

impl ModInfoView {
    /// What is shown of the mod `mod_name`, given what the mod portal tells
    /// about it: its title, summary, page, downloads and owner; of its
    /// releases, the latest one; and its thumbnail, unless that is the blank
    /// one.
    pub open spec fn data(self, mod_name: Seq<char>) -> ModDataView {
        let basic = ModDataView {
            thumbnail_url: thumbnail_url(self.thumbnail),
            ..ModDataView::basic(
                self.title,
                self.summary,
                mod_page_url(mod_name),
                SUCCESS_EMBED_COLOR,
                self.downloads_count,
                self.owner,
            )
        };
        if self.releases.len() == 0 {
            basic
        } else {
            basic.with_release(self.releases[latest(versions_of(self.releases))])
        }
    }
}

/// The page of the mod `mod_name` on the mod portal.
pub fn mod_page(mod_name: &str) -> (url: String)
    ensures
        url@ == mod_page_url(mod_name@),
{
    let mut url = String::from_str(MODPORTAL_URL);
    url.append("/mod/");
    url.append(mod_name);
    url
}

/// Where the mod portal answers questions about the mod `mod_name`.
pub fn mod_api(mod_name: &str) -> (url: String)
    ensures
        url@ == mod_api_url(mod_name@),
{
    let mut url = String::from_str(MODPORTAL_URL);
    url.append("/api/mods/");
    url.append(mod_name);
    url
}

/// Where the mod portal searches for `mod_name`.
pub fn mod_query(mod_name: &str) -> (url: String)
    ensures
        url@ == mod_query_url(mod_name@),
{
    let mut url = String::from_str(MODPORTAL_URL);
    url.append("/query/");
    url.append(mod_name);
    url
}

impl ModData {
    /// What is shown of a mod of which only this much is known.
    pub fn new(
        title: String,
        description: String,
        url: String,
        color: Color,
        downloads_count: usize,
        author: String,
    ) -> (data: ModData)
        ensures
            data@ == ModDataView::basic(
                title@,
                description@,
                url@,
                color,
                downloads_count,
                author@,
            ),
    {
        ModData {
            title,
            description,
            url,
            color,
            downloads_count,
            author,
            timestamp: None,
            thumbnail_url: None,
            game_version: None,
            download: None,
            latest_version: None,
        }
    }
}

/// What is shown of the mod `mod_name`, given what the mod portal tells about
/// it.
pub fn mod_data(info: ModInfo, mod_name: &str) -> (data: ModData)
    ensures
        data@ == info@.data(mod_name@),
{
    let mut versions: Vec<String> = Vec::new();
    let mut i: usize = 0;
    while i < info.releases.len()
        invariant
            i <= info.releases.len(),
            versions.len() == i,
            forall|a: int| 0 <= a < i ==> (#[trigger] versions@[a])@ == info.releases@[a].version@,
        decreases info.releases.len() - i,
    {
        versions.push(info.releases[i].version.clone());
        i += 1;
    }
    assert(versions.deep_view() =~= versions_of(info@.releases));
    let latest = latest_version(&versions);
    let mut data = ModData::new(
        info.title,
        info.summary,
        mod_page(mod_name),
        SUCCESS_EMBED_COLOR,
        info.downloads_count,
        info.owner,
    );
    if let Some(at) = latest {
        let release = &info.releases[at];
        data.timestamp = Some(release.released_at.clone());
        data.game_version = Some(release.factorio_version.clone());
        let mut official = String::from_str(MODPORTAL_URL);
        official.append(release.download_url.as_str());
        data.download = Some(ModDownload { official, launcher: None });
        data.latest_version = Some(release.version.clone());
    }
    if let Some(thumbnail) = info.thumbnail {
        if thumbnail != String::from_str(BLANK_THUMBNAIL) {
            let mut url = String::from_str(MODPORTAL_DATA_URL);
            url.append(thumbnail.as_str());
            data.thumbnail_url = Some(url);
        }
    }
    data
}

/// How the downloads of a release are shown.
pub open spec fn download_text(download: ModDownloadView) -> Seq<char> {
    match download.launcher {
        Some(launcher) => "[From official mod portal]("@ + download.official
            + ")\n[From Factorio Launcher storage]("@ + launcher + ")"@,
        None => "[From official mod portal]("@ + download.official + ")"@,
    }
}

/// How the author of a mod is shown: the name, linked to the author's page.
pub open spec fn author_text(author: Seq<char>) -> Seq<char> {
    "["@ + author + "](https://mods.factorio.com/user/"@ + author + ")"@
}

/// `embed` with one more field that may share its row, where there is a
/// value for it.
pub open spec fn with_optional_field(
    embed: EmbedView,
    name: Seq<char>,
    value: Option<Seq<char>>,
) -> EmbedView {
    match value {
        Some(value) => embed.with_field(name, value, true),
        None => embed,
    }
}

impl ModDataView {
    /// The embed that shows the mod: title, description, page and color; a
    /// field for each of the game's version, the download and the latest
    /// version that is known; the downloads and the author; the date of the
    /// latest release under a footer that says so; and the thumbnail.
    pub open spec fn embed(self) -> EmbedView {
        let head = EmbedView {
            title: Some(self.title),
            description: Some(self.description),
            url: Some(self.url),
            color: Some(self.color),
            ..EmbedView::empty()
        };
        let versions = with_optional_field(
            with_optional_field(
                with_optional_field(head, "Game version"@, self.game_version),
                "Download link"@,
                match self.download {
                    Some(download) => Some(download_text(download)),
                    None => None,
                },
            ),
            "Latest version"@,
            self.latest_version,
        );
        let body = versions.with_field(
            "Recent downloads"@,
            decimal(self.downloads_count as nat) + " times"@,
            true,
        ).with_field("Author"@, author_text(self.author), true);
        EmbedView {
            timestamp: self.timestamp,
            footer: if self.timestamp is Some {
                Some("Latest version was released at:"@)
            } else {
                None
            },
            thumbnail: self.thumbnail_url,
            ..body
        }
    }
}

/// The embed that says that the mod `mod_name` was not found.
pub open spec fn mod_not_found_embed(mod_name: Seq<char>) -> EmbedView {
    EmbedView {
        title: Some("Mod not found"@),
        description: Some("Failed to find "@ + mod_name),
        color: Some(FAILED_EMBED_COLOR),
        ..EmbedView::empty()
    }
}

/// The embed that shows the mod.
pub fn construct_mod_embed(data: ModData) -> (embed: Embed)
    ensures
        embed@ == data@.embed(),
{
    let mut embed = Embed::new();
    embed.title = Some(data.title);
    embed.description = Some(data.description);
    embed.url = Some(data.url);
    embed.color = Some(data.color);
    if let Some(game_version) = data.game_version {
        embed.field(String::from_str("Game version"), game_version, true);
    }
    if let Some(download) = data.download {
        let mut links = String::from_str("[From official mod portal](");
        links.append(download.official.as_str());
        if let Some(launcher) = download.launcher {
            links.append(")\n[From Factorio Launcher storage](");
            links.append(launcher.as_str());
        }
        links.append(")");
        embed.field(String::from_str("Download link"), links, true);
    }
    if let Some(latest_version) = data.latest_version {
        embed.field(String::from_str("Latest version"), latest_version, true);
    }
    let mut downloads = decimal_string(data.downloads_count as u64);
    downloads.append(" times");
    embed.field(String::from_str("Recent downloads"), downloads, true);
    let mut author = String::from_str("[");
    author.append(data.author.as_str());
    author.append("](https://mods.factorio.com/user/");
    author.append(data.author.as_str());
    author.append(")");
    embed.field(String::from_str("Author"), author, true);
    if let Some(timestamp) = data.timestamp {
        embed.timestamp = Some(timestamp);
        embed.footer = Some(String::from_str("Latest version was released at:"));
    }
    if let Some(thumbnail_url) = data.thumbnail_url {
        embed.thumbnail = Some(thumbnail_url);
    }
    embed
}

impl ModData {
    /// The embed that shows the outcome of the search for the mod `mod_name`:
    /// the mod, or that it was not found.
    pub fn result_to_embed(mod_data: Result<ModData, ModError>, mod_name: &str) -> (embed: Embed)
        ensures
            embed@ == match mod_data {
                Ok(data) => data@.embed(),
                Err(_) => mod_not_found_embed(mod_name@),
            },
    {
        match mod_data {
            Ok(data) => construct_mod_embed(data),
            Err(_) => {
                let mut embed = Embed::new();
                embed.title = Some(String::from_str("Mod not found"));
                let mut description = String::from_str("Failed to find ");
                description.append(mod_name);
                embed.description = Some(description);
                embed.color = Some(FAILED_EMBED_COLOR);
                embed
            },
        }
    }
}

} // verus!
