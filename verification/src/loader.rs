//! The loader's configuration and the decisions it takes.

use vstd::prelude::*;
use crate::error::{SerializationError, UniversalConfigError};
use crate::format::{
    all_formats, format_for, lemma_canonical_selects_itself, lemma_recognized_is_plain,
    lemma_selected_iff_recognized, Format,
};
use crate::host::{home_dir, is_regular_file, standard_config_dir};
use crate::path::{
    extension_of, file_name, join, joined, lemma_extension_of_named_file, with_extension,
};
use crate::search::{accepts, first_match, is_first_match, refuses};

verus! {

/// What a loader is configured with.
pub struct LoaderView {
    /// The application's name, from which the default directory is derived.
    pub app_name: Seq<char>,
    /// The file's base name, without extension.
    pub file_name: Seq<char>,
    /// The acceptable formats, in the order in which they are tried.
    pub formats: Seq<Format>,
    /// The directory to use in place of the host's, if one was given.
    pub config_dir: Option<Seq<char>>,
}

/// The extensions that are probed for the given formats, in order: each
/// format contributes its recognized extensions, and an earlier format's come
/// before a later one's.
pub open spec fn candidate_extensions(formats: Seq<Format>) -> Seq<Seq<char>>
    decreases formats.len(),
{
    if formats.len() == 0 {
        Seq::empty()
    } else {
        candidate_extensions(formats.drop_last()) + formats.last().recognized_extensions()
    }
}

/// The name of a directory that is hidden by a leading dot: `.<name>`.
pub open spec fn hidden(name: Seq<char>) -> Seq<char> {
    seq!['.'] + name
}

impl LoaderView {
    /// The directory that is searched and written to, given what the host
    /// answers for its configuration directory and for the home directory.
    /// The first of these that is there wins: the configured directory as it
    /// is; the application's name as seen from the host's configuration
    /// directory, `<standard>/<app_name>`; the dot-prefixed name as seen from
    /// the home directory, `<home>/.<app_name>`. `None` where none is.
    pub open spec fn resolved_dir(
        self,
        standard: Option<Seq<char>>,
        home: Option<Seq<char>>,
    ) -> Option<Seq<char>> {
        match (self.config_dir, standard, home) {
            (Some(dir), _, _) => Some(dir),
            (None, Some(base), _) => Some(joined(base, self.app_name)),
            (None, None, Some(base)) => Some(joined(base, hidden(self.app_name))),
            (None, None, None) => None,
        }
    }

    /// Whether the dot that is put behind the file name begins an extension:
    /// the file name is not empty and does not end in `/`. Behind any other
    /// file name the dot would be the first character of the path's last
    /// component, and the file would have no extension.
    pub open spec fn has_base_name(self) -> bool {
        self.file_name.len() > 0 && self.file_name.last() != '/'
    }

    /// The path of the file as seen from `dir` under the given extension:
    /// `<dir>/<file_name>.<extension>`.
    pub open spec fn file_path(self, dir: Seq<char>, extension: Seq<char>) -> Seq<char> {
        joined(dir, file_name(self.file_name, extension))
    }

    /// The paths that are probed in `dir`, in order.
    pub open spec fn candidate_paths(self, dir: Seq<char>) -> Seq<Seq<char>> {
        candidate_extensions(self.formats).map_values(
            |extension: Seq<char>| self.file_path(dir, extension),
        )
    }
}

/// `found` is what a search of `dir` through `probe` ends with: the first
/// candidate path that was accepted, or `FileNotFound` where every one was
/// refused. No other failure comes out of a search.
pub open spec fn is_search_outcome<F: Fn(&String) -> bool>(
    loader: LoaderView,
    dir: Seq<char>,
    probe: F,
    found: Result<String, UniversalConfigError>,
) -> bool {
    match found {
        Ok(path) => exists|index: int|
            is_first_match(loader.candidate_paths(dir), probe, Some(index)) && path@
                == #[trigger] loader.candidate_paths(dir)[index],
        Err(error) => error == UniversalConfigError::FileNotFound && is_first_match(
            loader.candidate_paths(dir),
            probe,
            None,
        ),
    }
}

/// Whether `outcome` reports the directory `expected`, or `MissingUserDir`
/// where there is none.
pub open spec fn reports_dir(
    outcome: Result<String, UniversalConfigError>,
    expected: Option<Seq<char>>,
) -> bool {
    match expected {
        Some(dir) => outcome matches Ok(found) && found@ == dir,
        None => outcome == Err::<String, UniversalConfigError>(UniversalConfigError::MissingUserDir),
    }
}

/// Where a configuration is written: the directory, which is created if it
/// is absent, the file's path inside it, and the text.
#[derive(Debug)]
pub struct SavePlan {
    /// The directory that must exist before the file is written.
    pub dir: String,
    /// The file that is written, replacing what was there.
    pub path: String,
    /// The encoded configuration.
    pub contents: String,
}

/// Locates an application's configuration file.
pub struct ConfigLoader<'a> {
    app_name: &'a str,
    file_name: &'a str,
    formats: &'a [Format],
    config_dir: Option<&'a str>,
}

impl<'a> View for ConfigLoader<'a> {
    type V = LoaderView;

    closed spec fn view(&self) -> LoaderView {
        LoaderView {
            app_name: self.app_name@,
            file_name: self.file_name@,
            formats: self.formats@,
            config_dir: match self.config_dir {
                Some(dir) => Some(dir@),
                None => None,
            },
        }
    }
}

impl<'a> ConfigLoader<'a> {
    /// A loader for the application `app_name`, which looks for a file named
    /// `config` in every supported format.
    #[must_use]
    pub fn new(app_name: &'a str) -> (loader: ConfigLoader<'a>)
        ensures
            loader@ == (LoaderView {
                app_name: app_name@,
                file_name: "config"@,
                formats: all_formats(),
                config_dir: None,
            }),
    {
        ConfigLoader {
            app_name,
            file_name: "config",
            formats: &[Format::Json, Format::Yaml, Format::Toml, Format::Corn, Format::Xml],
            config_dir: None,
        }
    }

    /// Sets the file's base name, without extension.
    pub fn with_file_name(self, file_name: &'a str) -> (loader: Self)
        ensures
            loader@ == (LoaderView { file_name: file_name@, ..self@ }),
    {
        ConfigLoader { file_name, ..self }
    }

    /// Sets the acceptable formats and the order in which they are tried.
    pub fn with_formats(self, formats: &'a [Format]) -> (loader: Self)
        ensures
            loader@ == (LoaderView { formats: formats@, ..self@ }),
    {
        ConfigLoader { formats, ..self }
    }

    /// Sets the directory in which the file is looked for and written.
    pub fn with_config_dir(self, dir: &'a str) -> (loader: Self)
        ensures
            loader@ == (LoaderView { config_dir: Some(dir@), ..self@ }),
    {
        ConfigLoader { config_dir: Some(dir), ..self }
    }

    /// The extensions that are probed, in order.
    pub fn get_extensions(&self) -> (extensions: Vec<&'static str>)
        ensures
            extensions.deep_view() == candidate_extensions(self@.formats),
    {
        let mut extensions: Vec<&'static str> = Vec::new();
        let mut index: usize = 0;
        while index < self.formats.len()
            invariant
                index <= self.formats@.len(),
                extensions.deep_view() == candidate_extensions(
                    self.formats@.subrange(0, index as int),
                ),
            decreases self.formats@.len() - index,
        {
            assert(self.formats@.subrange(0, index + 1).drop_last() == self.formats@.subrange(
                0,
                index as int,
            ));
            match self.formats[index] {
                Format::Json => extensions.push("json"),
                Format::Yaml => {
                    extensions.push("yaml");
                    extensions.push("yml");
                },
                Format::Toml => extensions.push("toml"),
                Format::Corn => extensions.push("corn"),
                Format::Xml => extensions.push("xml"),
            }
            index += 1;
        }
        assert(self.formats@.subrange(0, index as int) == self.formats@);
        extensions
    }

    /// Resolves the directory from what the host answered: `standard` for its
    /// per-user configuration directory, `home` for the home directory.
    pub fn resolve_dir(&self, standard: Option<String>, home: Option<String>) -> (outcome: Result<
        String,
        UniversalConfigError,
    >)
        ensures
            reports_dir(outcome, self@.resolved_dir(standard.deep_view(), home.deep_view())),
    {
        match self.config_dir {
            Some(dir) => Ok(dir.to_owned()),
            None => match standard {
                Some(base) => Ok(join(base.as_str(), self.app_name)),
                None => match home {
                    Some(base) => {
                        proof {
                            reveal_strlit(".");
                        }
                        let mut name = ".".to_owned();
                        name.append(self.app_name);
                        assert(name@ == hidden(self.app_name@));
                        Ok(join(base.as_str(), name.as_str()))
                    },
                    None => Err(UniversalConfigError::MissingUserDir),
                },
            },
        }
    }

    /// Resolves the directory on this host. The host is asked for its
    /// configuration directory only where none is configured, and for the home
    /// directory only where it has no configuration directory.
    pub fn get_config_dir(&self) -> (outcome: Result<String, UniversalConfigError>)
        ensures
            exists|standard: Option<Seq<char>>, home: Option<Seq<char>>|
                reports_dir(outcome, #[trigger] self@.resolved_dir(standard, home)),
    {
        if self.config_dir.is_some() {
            return self.resolve_dir(None, None);
        }
        let standard = standard_config_dir();
        let home = if standard.is_none() {
            home_dir()
        } else {
            None
        };
        self.resolve_dir(standard, home)
    }

    /// The paths that are probed in `dir`, in order.
    pub fn candidates(&self, dir: &str) -> (paths: Vec<String>)
        ensures
            paths.deep_view() == self@.candidate_paths(dir@),
    {
        let extensions = self.get_extensions();
        let mut paths: Vec<String> = Vec::new();
        let mut index: usize = 0;
        while index < extensions.len()
            invariant
                index <= extensions@.len(),
                extensions.deep_view() == candidate_extensions(self@.formats),
                paths@.len() == index,
                forall|i: int|
                    0 <= i < index ==> (#[trigger] paths@[i])@ == self@.file_path(
                        dir@,
                        candidate_extensions(self@.formats)[i],
                    ),
            decreases extensions@.len() - index,
        {
            let name = with_extension(self.file_name, extensions[index]);
            paths.push(join(dir, name.as_str()));
            index += 1;
        }
        paths
    }

    /// Searches `dir` for the file: probes the candidate paths in order and
    /// stops at the first that `probe` accepts.
    pub fn find_in<F: Fn(&String) -> bool>(&self, dir: &str, probe: F) -> (found: Result<
        String,
        UniversalConfigError,
    >)
        requires
            forall|path: &String| call_requires(probe, (path,)),
        ensures
            is_search_outcome(self@, dir@, probe, found),
    {
        let paths = self.candidates(dir);
        match first_match(&paths, probe) {
            Some(index) => Ok(paths[index].clone()),
            None => Err(UniversalConfigError::FileNotFound),
        }
    }

    /// Looks for the file on this host: resolves the directory, then probes
    /// the disk for each candidate path in order and stops at the first that
    /// is a regular file.
    ///
    /// What comes back depends on the host; this holds of every answer: a
    /// path is one of the candidates of a directory this loader resolves to,
    /// and the only failures are `FileNotFound` and, where no directory is
    /// configured, `MissingUserDir`.
    pub fn try_find_file(&self) -> (found: Result<String, UniversalConfigError>)
        ensures
            match found {
                Ok(path) => exists|standard: Option<Seq<char>>, home: Option<Seq<char>>|
                    (#[trigger] self@.resolved_dir(standard, home)) matches Some(dir)
                        && self@.candidate_paths(dir).contains(path@),
                Err(error) => error == UniversalConfigError::FileNotFound || (error
                    == UniversalConfigError::MissingUserDir && self@.config_dir is None),
            },
    {
        match self.get_config_dir() {
            Ok(dir) => self.find_in(dir.as_str(), is_regular_file),
            Err(error) => Err(error),
        }
    }

    /// The path at which a configuration in `format` is written inside `dir`:
    /// the file's name with the format's canonical extension.
    pub fn save_path(&self, dir: &str, format: &Format) -> (path: String)
        ensures
            path@ == self@.file_path(dir@, format.canonical_extension()),
    {
        let name = with_extension(self.file_name, format.extension());
        join(dir, name.as_str())
    }

    /// Decides where and whether a configuration is written, given what the
    /// encoder made of it.
    ///
    /// A format without an encoder is refused first, whatever `encoded` holds;
    /// then the encoder's own failure is passed on; only then is the directory
    /// resolved on this host. On success the plan names that directory, the
    /// file inside it under the format's canonical extension, and the text.
    pub fn plan_save(&self, format: &Format, encoded: Result<String, SerializationError>) -> (plan:
        Result<SavePlan, UniversalConfigError>)
        ensures
            match (format.registered_encoder(), encoded) {
                (None, _) => plan matches Err(UniversalConfigError::Serialization(error))
                    && error.unsupported() == Some(format.canonical_extension()),
                (Some(_), Err(error)) => plan matches Err(
                    UniversalConfigError::Serialization(passed),
                ) && passed == error,
                (Some(_), Ok(text)) => match plan {
                    Ok(plan) => {
                        &&& exists|standard: Option<Seq<char>>, home: Option<Seq<char>>|
                            #[trigger] self@.resolved_dir(standard, home) == Some(plan.dir@)
                        &&& plan.path@ == self@.file_path(plan.dir@, format.canonical_extension())
                        &&& plan.contents == text
                    },
                    Err(error) => error == UniversalConfigError::MissingUserDir
                        && self@.config_dir is None,
                },
            },
    {
        match format.encoder() {
            Err(error) => Err(UniversalConfigError::Serialization(error)),
            Ok(_) => match encoded {
                Err(error) => Err(UniversalConfigError::Serialization(error)),
                Ok(contents) => match self.get_config_dir() {
                    Err(error) => Err(error),
                    Ok(dir) => {
                        let path = self.save_path(dir.as_str(), format);
                        Ok(SavePlan { dir, path, contents })
                    },
                },
            },
        }
    }
}

/// The candidate extensions keep the order of the formats: those of a list
/// made of two parts are those of the first part, then those of the second.
pub proof fn lemma_candidate_extensions_in_order(first: Seq<Format>, second: Seq<Format>)
    ensures
        candidate_extensions(first + second) == candidate_extensions(first) + candidate_extensions(
            second,
        ),
    decreases second.len(),
{
    if second.len() > 0 {
        assert((first + second).drop_last() == first + second.drop_last());
        lemma_candidate_extensions_in_order(first, second.drop_last());
    }
}

/// Nothing is probed that the caller did not list: every candidate extension
/// is a recognized extension of one of the formats.
pub proof fn lemma_candidate_extension_is_listed(formats: Seq<Format>, index: int) -> (format:
    Format)
    requires
        0 <= index < candidate_extensions(formats).len(),
    ensures
        formats.contains(format),
        format.recognized_extensions().contains(candidate_extensions(formats)[index]),
    decreases formats.len(),
{
    let before = candidate_extensions(formats.drop_last());
    if index < before.len() {
        lemma_candidate_extension_is_listed(formats.drop_last(), index)
    } else {
        formats.last()
    }
}

/// Every listed format is probed: each of its recognized extensions is a
/// candidate extension.
pub proof fn lemma_listed_format_is_probed(formats: Seq<Format>, at: int, which: int)
    requires
        0 <= at < formats.len(),
        0 <= which < formats[at].recognized_extensions().len(),
    ensures
        candidate_extensions(formats).contains(formats[at].recognized_extensions()[which]),
    decreases formats.len(),
{
    let before = candidate_extensions(formats.drop_last());
    let all = candidate_extensions(formats);
    if at == formats.len() - 1 {
        assert(all[before.len() + which] == formats[at].recognized_extensions()[which]);
    } else {
        lemma_listed_format_is_probed(formats.drop_last(), at, which);
        let i = choose|i: int|
            0 <= i < before.len() && before[i] == formats[at].recognized_extensions()[which];
        assert(all[i] == before[i]);
    }
}

/// The candidates begin with the files of the first format, under its
/// recognized extensions in their order.
pub proof fn lemma_first_candidates(loader: LoaderView, dir: Seq<char>, which: int)
    requires
        loader.formats.len() > 0,
        0 <= which < loader.formats[0].recognized_extensions().len(),
    ensures
        which < loader.candidate_paths(dir).len(),
        loader.candidate_paths(dir)[which] == loader.file_path(
            dir,
            loader.formats[0].recognized_extensions()[which],
        ),
{
    let first = loader.formats.subrange(0, 1);
    let rest = loader.formats.subrange(1, loader.formats.len() as int);
    assert(loader.formats == first + rest);
    lemma_candidate_extensions_in_order(first, rest);
    assert(candidate_extensions(first.drop_last()) == Seq::<Seq<char>>::empty());
}

/// First in order wins: where a file of the first format is present, the
/// search ends with a file of the first format, whatever files of other
/// formats are present beside it. It is the file under the first of that
/// format's extensions that was not refused.
pub proof fn lemma_earlier_format_wins<F: Fn(&String) -> bool>(
    loader: LoaderView,
    dir: Seq<char>,
    probe: F,
    found: Result<String, UniversalConfigError>,
    which: int,
)
    requires
        is_search_outcome(loader, dir, probe, found),
        loader.formats.len() > 0,
        0 <= which < loader.formats[0].recognized_extensions().len(),
        !refuses(
            probe,
            loader.file_path(dir, loader.formats[0].recognized_extensions()[which]),
        ),
    ensures
        found matches Ok(path) && exists|at: int|
            0 <= at <= which && path@ == loader.file_path(
                dir,
                #[trigger] loader.formats[0].recognized_extensions()[at],
            ),
        which == 0 ==> (found matches Ok(path) && path@ == loader.file_path(
            dir,
            loader.formats[0].canonical_extension(),
        )),
{
    lemma_first_candidates(loader, dir, which);
    lemma_canonical_selects_itself(loader.formats[0]);
    match found {
        Ok(path) => {
            let index = choose|index: int|
                is_first_match(loader.candidate_paths(dir), probe, Some(index)) && path@
                    == #[trigger] loader.candidate_paths(dir)[index];
            lemma_first_candidates(loader, dir, index);
        },
        Err(_) => {},
    }
}

/// A search of a directory that holds none of the candidates ends with
/// `FileNotFound`, and with no other failure.
pub proof fn lemma_nothing_present_file_not_found<F: Fn(&String) -> bool>(
    loader: LoaderView,
    dir: Seq<char>,
    probe: F,
    found: Result<String, UniversalConfigError>,
)
    requires
        is_search_outcome(loader, dir, probe, found),
        forall|index: int|
            0 <= index < loader.candidate_paths(dir).len() ==> !accepts(
                probe,
                #[trigger] loader.candidate_paths(dir)[index],
            ),
    ensures
        found == Err::<String, UniversalConfigError>(UniversalConfigError::FileNotFound),
{
}

/// What the search finds can be decoded, and in a format that the caller
/// listed: the extension of every candidate path selects such a format,
/// where the file name is one behind which a dot begins an extension.
pub proof fn lemma_candidate_is_read_in_listed_format(
    loader: LoaderView,
    dir: Seq<char>,
    index: int,
)
    requires
        loader.has_base_name(),
        0 <= index < loader.candidate_paths(dir).len(),
    ensures
        format_for(extension_of(loader.candidate_paths(dir)[index])) matches Some(format)
            && loader.formats.contains(format),
{
    let extension = candidate_extensions(loader.formats)[index];
    let format = lemma_candidate_extension_is_listed(loader.formats, index);
    let at = choose|i: int|
        0 <= i < format.recognized_extensions().len() && format.recognized_extensions()[i]
            == extension;
    lemma_recognized_is_plain(format, at);
    lemma_extension_of_named_file(dir, loader.file_name, extension);
    lemma_selected_iff_recognized(extension, format);
}

/// What is written in a format is read back in that format: the path that a
/// configuration is saved at selects the decoder of the format it was saved
/// in, for every directory and every file name behind which a dot begins an
/// extension.
pub proof fn lemma_saved_file_is_read_in_its_format(
    loader: LoaderView,
    dir: Seq<char>,
    format: Format,
)
    requires
        loader.has_base_name(),
    ensures
        format_for(extension_of(loader.file_path(dir, format.canonical_extension()))) == Some(
            format,
        ),
{
    lemma_canonical_selects_itself(format);
    lemma_recognized_is_plain(format, 0);
    lemma_extension_of_named_file(dir, loader.file_name, format.canonical_extension());
}

} // verus!
