use crate::models::StructureItem;
use crate::walk::{initial, VerificationError, Walker};
use vstd::prelude::*;

verus! {

/// The well-known directories of an application whose layout can be
/// declared.
#[derive(PartialEq, Eq, Structural, Clone, Copy, Debug)]
pub enum DirKind {
    AppCache,
    AppConfig,
    AppData,
    AppLocalData,
    AppLog,
    Audio,
    Cache,
    Config,
    Data,
    Desktop,
    Document,
    Download,
    Executable,
    Font,
    Home,
    LocalData,
    Picture,
    Public,
    Resource,
    Runtime,
    Temp,
    Template,
    Video,
}

/// The identifier of each well-known directory in a schema document.
pub open spec fn kind_name(k: DirKind) -> Seq<char> {
    match k {
        DirKind::AppCache => "appCache"@,
        DirKind::AppConfig => "appConfig"@,
        DirKind::AppData => "appData"@,
        DirKind::AppLocalData => "appLocalData"@,
        DirKind::AppLog => "appLog"@,
        DirKind::Audio => "audio"@,
        DirKind::Cache => "cache"@,
        DirKind::Config => "config"@,
        DirKind::Data => "data"@,
        DirKind::Desktop => "desktop"@,
        DirKind::Document => "document"@,
        DirKind::Download => "download"@,
        DirKind::Executable => "executable"@,
        DirKind::Font => "font"@,
        DirKind::Home => "home"@,
        DirKind::LocalData => "localData"@,
        DirKind::Picture => "picture"@,
        DirKind::Public => "public"@,
        DirKind::Resource => "resource"@,
        DirKind::Runtime => "runtime"@,
        DirKind::Temp => "temp"@,
        DirKind::Template => "template"@,
        DirKind::Video => "video"@,
    }
}

impl DirKind {
    /// The identifier of this directory in a schema document.
    pub fn name(&self) -> (r: &'static str)
        ensures
            r@ == kind_name(*self),
    {
        match self {
            DirKind::AppCache => "appCache",
            DirKind::AppConfig => "appConfig",
            DirKind::AppData => "appData",
            DirKind::AppLocalData => "appLocalData",
            DirKind::AppLog => "appLog",
            DirKind::Audio => "audio",
            DirKind::Cache => "cache",
            DirKind::Config => "config",
            DirKind::Data => "data",
            DirKind::Desktop => "desktop",
            DirKind::Document => "document",
            DirKind::Download => "download",
            DirKind::Executable => "executable",
            DirKind::Font => "font",
            DirKind::Home => "home",
            DirKind::LocalData => "localData",
            DirKind::Picture => "picture",
            DirKind::Public => "public",
            DirKind::Resource => "resource",
            DirKind::Runtime => "runtime",
            DirKind::Temp => "temp",
            DirKind::Template => "template",
            DirKind::Video => "video",
        }
    }
}

/// The declared layout of each well-known directory; `None` where none is
/// declared.
#[derive(Debug, Default, PartialEq, Eq)]
pub struct StructureConfig {
    pub app_cache: Option<StructureItem>,
    pub app_config: Option<StructureItem>,
    pub app_data: Option<StructureItem>,
    pub app_local_data: Option<StructureItem>,
    pub app_log: Option<StructureItem>,
    pub audio: Option<StructureItem>,
    pub cache: Option<StructureItem>,
    pub config: Option<StructureItem>,
    pub data: Option<StructureItem>,
    pub desktop: Option<StructureItem>,
    pub document: Option<StructureItem>,
    pub download: Option<StructureItem>,
    pub executable: Option<StructureItem>,
    pub font: Option<StructureItem>,
    pub home: Option<StructureItem>,
    pub local_data: Option<StructureItem>,
    pub picture: Option<StructureItem>,
    pub public: Option<StructureItem>,
    pub resource: Option<StructureItem>,
    pub runtime: Option<StructureItem>,
    pub temp: Option<StructureItem>,
    pub template: Option<StructureItem>,
    pub video: Option<StructureItem>,
}

impl StructureConfig {
    /// The item declared for the directory `k`.
    pub open spec fn item_spec(&self, k: DirKind) -> Option<StructureItem> {
        match k {
            DirKind::AppCache => self.app_cache,
            DirKind::AppConfig => self.app_config,
            DirKind::AppData => self.app_data,
            DirKind::AppLocalData => self.app_local_data,
            DirKind::AppLog => self.app_log,
            DirKind::Audio => self.audio,
            DirKind::Cache => self.cache,
            DirKind::Config => self.config,
            DirKind::Data => self.data,
            DirKind::Desktop => self.desktop,
            DirKind::Document => self.document,
            DirKind::Download => self.download,
            DirKind::Executable => self.executable,
            DirKind::Font => self.font,
            DirKind::Home => self.home,
            DirKind::LocalData => self.local_data,
            DirKind::Picture => self.picture,
            DirKind::Public => self.public,
            DirKind::Resource => self.resource,
            DirKind::Runtime => self.runtime,
            DirKind::Temp => self.temp,
            DirKind::Template => self.template,
            DirKind::Video => self.video,
        }
    }

    /// The item declared for the directory `k`.
    pub fn item(&self, k: DirKind) -> (r: &Option<StructureItem>)
        ensures
            *r == self.item_spec(k),
    {
        match k {
            DirKind::AppCache => &self.app_cache,
            DirKind::AppConfig => &self.app_config,
            DirKind::AppData => &self.app_data,
            DirKind::AppLocalData => &self.app_local_data,
            DirKind::AppLog => &self.app_log,
            DirKind::Audio => &self.audio,
            DirKind::Cache => &self.cache,
            DirKind::Config => &self.config,
            DirKind::Data => &self.data,
            DirKind::Desktop => &self.desktop,
            DirKind::Document => &self.document,
            DirKind::Download => &self.download,
            DirKind::Executable => &self.executable,
            DirKind::Font => &self.font,
            DirKind::Home => &self.home,
            DirKind::LocalData => &self.local_data,
            DirKind::Picture => &self.picture,
            DirKind::Public => &self.public,
            DirKind::Resource => &self.resource,
            DirKind::Runtime => &self.runtime,
            DirKind::Temp => &self.temp,
            DirKind::Template => &self.template,
            DirKind::Video => &self.video,
        }
    }

    /// Starts the verification of the well-known directory `k`, given the
    /// outcome of resolving its path: a resolution failure comes first, then
    /// a directory with no declared item.
    pub fn begin(&self, k: DirKind, resolved: Result<(), String>) -> (r: Result<
        Walker,
        StructureError,
    >)
        ensures
            match resolved {
                Err(e) => r matches Err(StructureError::PathResolution(k2, e2)) && k2 == k && e2@
                    == e@,
                Ok(()) => match self.item_spec(k) {
                    None => r matches Err(StructureError::FieldNotConfigured(k2)) && k2 == k,
                    Some(item) => r matches Ok(w) && w.wf() && w@ == initial(item),
                },
            },
    {
        match resolved {
            Err(e) => Err(StructureError::PathResolution(k, e)),
            Ok(()) => match self.item(k) {
                None => Err(StructureError::FieldNotConfigured(k)),
                Some(item) => Ok(Walker::new(item)),
            },
        }
    }
}

/// Why the verification of a well-known directory failed.
#[derive(Clone, Debug, PartialEq, Eq)]
pub enum StructureError {
    /// The directory's path could not be resolved, with the reason.
    PathResolution(DirKind, String),
    /// The configuration declares no item for the directory.
    FieldNotConfigured(DirKind),
    /// The directory does not match its item.
    Verification(VerificationError),
}

} // verus!
