use vstd::prelude::*;

verus! {

/// One failure kind for the whole fetch path: a closed taxonomy so that
/// callers can handle every outcome exhaustively.
#[derive(Clone, Copy, Debug, PartialEq, Eq, Structural)]
pub enum FetchError {
    /// The configuration is unusable (blank credential or root, zero id);
    /// rejected before any request is planned.
    ConfigError,
    /// The exchange itself failed: connection trouble or a non-success
    /// HTTP status.
    TransportError,
    /// The response body does not match the expected resource shape.
    SchemaMismatch,
}

impl FetchError {
    /// A short description of the failure, for the caller to print.
    pub fn describe(&self) -> (s: String)
        ensures
            match self {
                FetchError::ConfigError => s@ == "invalid configuration"@,
                FetchError::TransportError => s@ == "transport failure"@,
                FetchError::SchemaMismatch => s@ == "response does not match the schema"@,
            },
    {
        match self {
            FetchError::ConfigError => "invalid configuration".to_owned(),
            FetchError::TransportError => "transport failure".to_owned(),
            FetchError::SchemaMismatch => "response does not match the schema".to_owned(),
        }
    }
}

/// Validated inputs for one fetch: where the service lives, how to
/// authenticate, and which project to read.
#[derive(Debug, Clone)]
pub struct FetchConfig {
    pub api_root: String,
    pub access_token: String,
    pub project_id: u64,
}

#[verifier::ext_equal]
pub struct SpecFetchConfig {
    pub api_root: Seq<char>,
    pub access_token: Seq<char>,
    pub project_id: u64,
}

impl View for FetchConfig {
    type V = SpecFetchConfig;

    open spec fn view(&self) -> SpecFetchConfig {
        SpecFetchConfig {
            api_root: self.api_root@,
            access_token: self.access_token@,
            project_id: self.project_id,
        }
    }
}

/// A leaf visual node within a page.
#[derive(Debug, Clone, PartialEq, Eq)]
pub struct LayerDetails {
    pub id: String,
    pub name: Option<String>,
    pub image_url: Option<String>,
}

#[verifier::ext_equal]
pub struct SpecLayerDetails {
    pub id: Seq<char>,
    pub name: Option<Seq<char>>,
    pub image_url: Option<Seq<char>>,
}

impl View for LayerDetails {
    type V = SpecLayerDetails;

    open spec fn view(&self) -> SpecLayerDetails {
        SpecLayerDetails {
            id: self.id@,
            name: match self.name {
                Some(s) => Some(s@),
                None => None,
            },
            image_url: match self.image_url {
                Some(s) => Some(s@),
                None => None,
            },
        }
    }
}

/// The element-wise view of a list of layers.
pub open spec fn layer_seq_view(ls: Seq<LayerDetails>) -> Seq<SpecLayerDetails> {
    Seq::new(ls.len(), |i: int| ls[i]@)
}

/// The view of an optional list of layers: absent stays absent.
pub open spec fn layers_opt_view(o: Option<Vec<LayerDetails>>) -> Option<Seq<SpecLayerDetails>> {
    match o {
        Some(ls) => Some(layer_seq_view(ls@)),
        None => None,
    }
}

/// One canvas within a file. `layers` is absent unless the source object
/// carried the field; a missing field means absent, never a failure.
#[derive(Debug, Clone, PartialEq, Eq)]
pub struct PageDetails {
    pub id: String,
    pub name: String,
    pub layers: Option<Vec<LayerDetails>>,
}

#[verifier::ext_equal]
pub struct SpecPageDetails {
    pub id: Seq<char>,
    pub name: Seq<char>,
    pub layers: Option<Seq<SpecLayerDetails>>,
}

impl View for PageDetails {
    type V = SpecPageDetails;

    open spec fn view(&self) -> SpecPageDetails {
        SpecPageDetails { id: self.id@, name: self.name@, layers: layers_opt_view(self.layers) }
    }
}

/// The value a missing `layers` field takes: the absent marker, never an
/// error. Kept as a function so the defaulting rule has a single home.
pub fn default_layers() -> (r: Option<Vec<LayerDetails>>)
    ensures
        r is None,
{
    None
}

/// The element-wise view of a list of pages.
pub open spec fn page_seq_view(ps: Seq<PageDetails>) -> Seq<SpecPageDetails> {
    Seq::new(ps.len(), |i: int| ps[i]@)
}

/// The view of an optional list of pages: absent stays absent.
pub open spec fn pages_opt_view(o: Option<Vec<PageDetails>>) -> Option<Seq<SpecPageDetails>> {
    match o {
        Some(ps) => Some(page_seq_view(ps@)),
        None => None,
    }
}

/// The full record of one design file, pages included when fetched.
#[derive(Debug, Clone, PartialEq, Eq)]
pub struct FileDetails {
    pub key: String,
    pub name: String,
    pub pages: Option<Vec<PageDetails>>,
}

#[verifier::ext_equal]
pub struct SpecFileDetails {
    pub key: Seq<char>,
    pub name: Seq<char>,
    pub pages: Option<Seq<SpecPageDetails>>,
}

impl View for FileDetails {
    type V = SpecFileDetails;

    open spec fn view(&self) -> SpecFileDetails {
        SpecFileDetails { key: self.key@, name: self.name@, pages: pages_opt_view(self.pages) }
    }
}

/// The summary record of one design file as the project listing returns it.
#[derive(Debug, Clone, PartialEq, Eq)]
pub struct FileInfo {
    pub key: String,
    pub name: String,
    pub thumbnail_url: Option<String>,
    pub last_modified: String,
}

#[verifier::ext_equal]
pub struct SpecFileInfo {
    pub key: Seq<char>,
    pub name: Seq<char>,
    pub thumbnail_url: Option<Seq<char>>,
    pub last_modified: Seq<char>,
}

impl View for FileInfo {
    type V = SpecFileInfo;

    open spec fn view(&self) -> SpecFileInfo {
        SpecFileInfo {
            key: self.key@,
            name: self.name@,
            thumbnail_url: match self.thumbnail_url {
                Some(s) => Some(s@),
                None => None,
            },
            last_modified: self.last_modified@,
        }
    }
}

/// The element-wise view of the file listing.
pub open spec fn file_info_seq_view(fs: Seq<FileInfo>) -> Seq<SpecFileInfo> {
    Seq::new(fs.len(), |i: int| fs[i]@)
}

/// The top-level response of the project-files endpoint: the project's name
/// and its files in the order the server listed them.
#[derive(Debug, Clone, PartialEq, Eq)]
pub struct ProjectDetails {
    pub name: String,
    pub files: Vec<FileInfo>,
}

#[verifier::ext_equal]
pub struct SpecProjectDetails {
    pub name: Seq<char>,
    pub files: Seq<SpecFileInfo>,
}

impl View for ProjectDetails {
    type V = SpecProjectDetails;

    open spec fn view(&self) -> SpecProjectDetails {
        SpecProjectDetails { name: self.name@, files: file_info_seq_view(self.files@) }
    }
}

/// Client-side export configuration; part of the modeled schema though the
/// fetch path itself never sends it.
#[derive(Debug, Clone, PartialEq, Eq)]
pub struct ExportOptions {
    pub directory: Option<String>,
    pub format: Option<String>,
    pub scale: Option<u32>,
    pub first_page_only: Option<bool>,
}

#[verifier::ext_equal]
pub struct SpecExportOptions {
    pub directory: Option<Seq<char>>,
    pub format: Option<Seq<char>>,
    pub scale: Option<u32>,
    pub first_page_only: Option<bool>,
}

impl View for ExportOptions {
    type V = SpecExportOptions;

    open spec fn view(&self) -> SpecExportOptions {
        SpecExportOptions {
            directory: match self.directory {
                Some(s) => Some(s@),
                None => None,
            },
            format: match self.format {
                Some(s) => Some(s@),
                None => None,
            },
            scale: self.scale,
            first_page_only: self.first_page_only,
        }
    }
}

} // verus!
