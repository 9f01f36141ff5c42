//! The two desktop commands: naming the user's downloads folder and opening
//! it in the file manager.

use crate::paths::{join, spec_join};
use vstd::prelude::*;
use vstd::string::*;

verus! {

/// The desktop platforms on which the commands are offered.
#[derive(Clone, Copy, Debug, PartialEq, Eq, Structural)]
pub enum Platform {
    Linux,
    Windows,
    MacOs,
}

/// A folder that may serve as the downloads folder, as plain data.
pub struct FolderProbeModel {
    pub path: Seq<char>,
    pub exists: bool,
}

/// A folder that may serve as the downloads folder, with the answer to
/// whether it exists.
#[derive(Debug)]
pub struct FolderProbe {
    pub path: String,
    pub exists: bool,
}

impl View for FolderProbe {
    type V = FolderProbeModel;

    open spec fn view(&self) -> FolderProbeModel {
        FolderProbeModel { path: self.path@, exists: self.exists }
    }
}

impl DeepView for FolderProbe {
    type V = FolderProbeModel;

    open spec fn deep_view(&self) -> FolderProbeModel {
        self@
    }
}

/// A result of texts as plain data.
pub open spec fn result_view(result: Result<String, String>) -> Result<Seq<char>, Seq<char>> {
    match result {
        Ok(text) => Ok(text@),
        Err(text) => Err(text@),
    }
}

/// The folder looked at first: `Downloads` directly inside the home
/// directory, written with the separator of the platform. On Windows that is
/// a backslash, left out where the home directory already ends with a
/// backslash or a slash.
pub open spec fn spec_home_downloads(platform: Platform, home: Seq<char>) -> Seq<char> {
    if platform is Windows {
        if home.len() == 0 || home.last() == '\\' || home.last() == '/' {
            home + "Downloads"@
        } else {
            home + seq!['\\'] + "Downloads"@
        }
    } else {
        spec_join(home, "Downloads"@)
    }
}

/// The downloads folder. The one inside the home directory is taken if it
/// exists. Otherwise Linux takes the folder that the desktop environment
/// names, if that exists, and the other platforms take the folder that the
/// system names, as it is. Failing that, there is none.
pub open spec fn spec_downloads_path(
    platform: Platform,
    home_downloads: Option<FolderProbeModel>,
    desktop_folder: Option<FolderProbeModel>,
    system_folder: Option<Seq<char>>,
) -> Result<Seq<char>, Seq<char>> {
    if home_downloads is Some && home_downloads->0.exists {
        Ok(home_downloads->0.path)
    } else if platform is Linux {
        if desktop_folder is Some && desktop_folder->0.exists {
            Ok(desktop_folder->0.path)
        } else {
            Err("Could not determine downloads folder"@)
        }
    } else {
        match system_folder {
            Some(path) => Ok(path),
            None => Err("Could not determine downloads folder"@),
        }
    }
}

/// The path of `Downloads` inside the home directory `home`.
pub fn home_downloads(platform: Platform, home: &str) -> (path: String)
    ensures
        path@ == spec_home_downloads(platform, home@),
{
    match platform {
        Platform::Windows => {
            let length: usize = home.unicode_len();
            let mut path = String::from_str(home);
            let open_ended: bool = length > 0 && home.get_char(length - 1) != '\\'
                && home.get_char(length - 1) != '/';
            if open_ended {
                proof {
                    reveal_strlit("\\");
                }
                path.append("\\");
            }
            path.append("Downloads");
            path
        },
        _ => join(home, "Downloads"),
    }
}

/// Names the downloads folder, or says that none could be determined.
/// `home_downloads` is the folder that [`home_downloads`] names, if the home
/// directory is known; `desktop_folder` is the one that the variable
/// `XDG_DOWNLOAD_DIR` names, if it is set; `system_folder` is the one that
/// the system names, if it names one.
pub fn get_downloads_path(
    platform: Platform,
    home_downloads: &Option<FolderProbe>,
    desktop_folder: &Option<FolderProbe>,
    system_folder: &Option<String>,
) -> (found: Result<String, String>)
    ensures
        result_view(found) == spec_downloads_path(
            platform,
            home_downloads.deep_view(),
            desktop_folder.deep_view(),
            system_folder.deep_view(),
        ),
{
    if let Some(folder) = home_downloads {
        if folder.exists {
            return Ok(folder.path.clone());
        }
    }
    match platform {
        Platform::Linux => {
            if let Some(folder) = desktop_folder {
                if folder.exists {
                    return Ok(folder.path.clone());
                }
            }
        },
        _ => {
            if let Some(path) = system_folder {
                return Ok(path.clone());
            }
        },
    }
    Err(String::from_str("Could not determine downloads folder"))
}

/// The file-manager commands of a platform, in the order in which they are
/// tried.
pub open spec fn opener_commands(platform: Platform) -> Seq<Seq<char>> {
    match platform {
        Platform::Linux => seq!["xdg-open"@, "nautilus"@, "dolphin"@],
        Platform::Windows => seq!["explorer"@],
        Platform::MacOs => seq!["open"@],
    }
}

/// What is reported when the folder was opened.
pub open spec fn opened_message() -> Seq<char> {
    "Pasta Downloads aberta com sucesso"@
}

/// What is reported when no file manager of the platform could open the
/// folder.
pub open spec fn opener_failure(platform: Platform) -> Seq<char> {
    match platform {
        Platform::Linux => "Não foi possível abrir o gerenciador de arquivos"@,
        Platform::Windows => "Não foi possível abrir o Explorer"@,
        Platform::MacOs => "Não foi possível abrir o Finder"@,
    }
}

/// What the opener wants next, as plain data.
pub enum OpenStepModel {
    /// Run `program` with `folder` as its only argument and wait for it; with
    /// `silent`, discard what it prints.
    Run { program: Seq<char>, folder: Seq<char>, silent: bool },
    /// The command is over, with the message to hand back.
    Finished(Result<Seq<char>, Seq<char>>),
}

/// The opener as plain data.
pub struct OpenerModel {
    pub platform: Platform,
    /// The folder to open, or why there is none.
    pub folder: Result<Seq<char>, Seq<char>>,
    /// Position of the command to try next.
    pub next: nat,
    pub opened: bool,
}

impl OpenerModel {
    /// The opener before any command has run.
    pub open spec fn start(
        platform: Platform,
        folder: Result<Seq<char>, Seq<char>>,
    ) -> OpenerModel {
        OpenerModel { platform, folder, next: 0, opened: false }
    }

    /// What the opener wants next: the next command while there is a folder
    /// that no command has opened yet, the result otherwise.
    pub open spec fn step(self) -> OpenStepModel {
        match self.folder {
            Err(message) => OpenStepModel::Finished(Err(message)),
            Ok(folder) => if self.opened {
                OpenStepModel::Finished(Ok(opened_message()))
            } else if self.next >= opener_commands(self.platform).len() {
                OpenStepModel::Finished(Err(opener_failure(self.platform)))
            } else {
                OpenStepModel::Run {
                    program: opener_commands(self.platform)[self.next as int],
                    folder,
                    silent: self.platform is Linux,
                }
            },
        }
    }

    /// The opener after the pending command ran: done if it succeeded, on to
    /// the next command if not. Ignored unless a command is pending.
    pub open spec fn ran(self, succeeded: bool) -> OpenerModel {
        if !(self.step() is Run) {
            self
        } else if succeeded {
            OpenerModel { opened: true, ..self }
        } else {
            OpenerModel { next: self.next + 1, ..self }
        }
    }

    /// An upper bound on the commands still to run.
    pub open spec fn remaining(self) -> nat {
        if self.step() is Run {
            (opener_commands(self.platform).len() - self.next) as nat
        } else {
            0
        }
    }

    /// The opener after every command has been run in a world in which
    /// exactly the programs in `working` open the folder.
    pub open spec fn run(self, working: Set<Seq<char>>) -> OpenerModel
        decreases self.remaining(),
    {
        match self.step() {
            OpenStepModel::Run { program, .. } => self.ran(working.contains(program)).run(working),
            _ => self,
        }
    }
}

/// What the opener wants next.
#[derive(Debug)]
pub enum OpenStep {
    /// Run `program` with `folder` as its only argument, wait for it, and
    /// report with [`FolderOpener::ran`] whether it started and ended with
    /// success; with `silent`, discard what it prints.
    Run { program: String, folder: String, silent: bool },
    /// The command is over, with the message to hand back.
    Finished(Result<String, String>),
}

impl View for OpenStep {
    type V = OpenStepModel;

    open spec fn view(&self) -> OpenStepModel {
        match self {
            OpenStep::Run { program, folder, silent } => OpenStepModel::Run {
                program: program@,
                folder: folder@,
                silent: *silent,
            },
            OpenStep::Finished(result) => OpenStepModel::Finished(result_view(*result)),
        }
    }
}

/// Opens the downloads folder with the first file manager that manages it.
pub struct FolderOpener {
    platform: Platform,
    folder: Result<String, String>,
    next: usize,
    opened: bool,
}

impl View for FolderOpener {
    type V = OpenerModel;

    closed spec fn view(&self) -> OpenerModel {
        OpenerModel {
            platform: self.platform,
            folder: result_view(self.folder),
            next: self.next as nat,
            opened: self.opened,
        }
    }
}

fn opener_command(platform: Platform, index: usize) -> (program: Option<&'static str>)
    ensures
        match program {
            Some(name) => index < opener_commands(platform).len() && name@ == opener_commands(
                platform,
            )[index as int],
            None => index >= opener_commands(platform).len(),
        },
{
    match platform {
        Platform::Linux => if index == 0 {
            Some("xdg-open")
        } else if index == 1 {
            Some("nautilus")
        } else if index == 2 {
            Some("dolphin")
        } else {
            None
        },
        Platform::Windows => if index == 0 {
            Some("explorer")
        } else {
            None
        },
        Platform::MacOs => if index == 0 {
            Some("open")
        } else {
            None
        },
    }
}

fn failure_message(platform: Platform) -> (message: String)
    ensures
        message@ == opener_failure(platform),
{
    match platform {
        Platform::Linux => String::from_str("Não foi possível abrir o gerenciador de arquivos"),
        Platform::Windows => String::from_str("Não foi possível abrir o Explorer"),
        Platform::MacOs => String::from_str("Não foi possível abrir o Finder"),
    }
}

impl FolderOpener {
    /// An opener for the folder that [`get_downloads_path`] named, or for its
    /// failure, which is then handed on unchanged.
    pub fn new(platform: Platform, folder: Result<String, String>) -> (opener: FolderOpener)
        ensures
            opener@ == OpenerModel::start(platform, result_view(folder)),
    {
        FolderOpener { platform, folder, next: 0, opened: false }
    }

    /// What the caller has to do next.
    pub fn next_step(&self) -> (step: OpenStep)
        ensures
            step@ == self@.step(),
    {
        match &self.folder {
            Err(message) => OpenStep::Finished(Err(message.clone())),
            Ok(folder) => {
                if self.opened {
                    OpenStep::Finished(Ok(String::from_str("Pasta Downloads aberta com sucesso")))
                } else {
                    match opener_command(self.platform, self.next) {
                        Some(program) => OpenStep::Run {
                            program: String::from_str(program),
                            folder: folder.clone(),
                            silent: match self.platform {
                                Platform::Linux => true,
                                _ => false,
                            },
                        },
                        None => OpenStep::Finished(Err(failure_message(self.platform))),
                    }
                }
            },
        }
    }

    /// Takes the report on the pending command: whether it started and ended
    /// with success.
    pub fn ran(&mut self, succeeded: bool)
        ensures
            final(self)@ == old(self)@.ran(succeeded),
    {
        if self.folder.is_err() || self.opened {
            return ;
        }
        if opener_command(self.platform, self.next).is_none() {
            return ;
        }
        if succeeded {
            self.opened = true;
        } else {
            self.next = self.next + 1;
        }
    }
}

proof fn lemma_opener_run(m: OpenerModel, working: Set<Seq<char>>, k: int)
    requires
        m.folder is Ok,
        !m.opened,
        m.next <= k <= opener_commands(m.platform).len(),
        forall|i: int|
            m.next <= i < k ==> !working.contains(#[trigger] opener_commands(m.platform)[i]),
        k < opener_commands(m.platform).len() ==> working.contains(opener_commands(m.platform)[k]),
    ensures
        m.run(working) == (OpenerModel {
            next: k as nat,
            opened: k < opener_commands(m.platform).len(),
            ..m
        }),
    decreases k - m.next,
{
    if m.next < k {
        lemma_opener_run(m.ran(false), working, k);
    } else if k < opener_commands(m.platform).len() {
        assert(m.ran(true).run(working) == m.ran(true));
    }
}

/// The folder is opened by the first command of the platform that works, and
/// by no command after it: with the `k`-th command the first that works,
/// exactly `k` commands fail before the success is reported.
pub proof fn law_first_working_opener_wins(
    platform: Platform,
    folder: Seq<char>,
    working: Set<Seq<char>>,
    k: int,
)
    requires
        0 <= k < opener_commands(platform).len(),
        working.contains(opener_commands(platform)[k]),
        forall|i: int| 0 <= i < k ==> !working.contains(#[trigger] opener_commands(platform)[i]),
    ensures
        OpenerModel::start(platform, Ok(folder)).run(working).step() == OpenStepModel::Finished(
            Ok(opened_message()),
        ),
        OpenerModel::start(platform, Ok(folder)).run(working).next == k,
{
    lemma_opener_run(OpenerModel::start(platform, Ok(folder)), working, k);
}

/// When no command of the platform works, every one of them is tried and the
/// platform's failure message is reported; when there is no folder to open,
/// nothing is tried and the reason is handed on.
pub proof fn law_opener_failures(
    platform: Platform,
    folder: Result<Seq<char>, Seq<char>>,
    working: Set<Seq<char>>,
)
    requires
        forall|i: int|
            0 <= i < opener_commands(platform).len() ==> !working.contains(
                #[trigger] opener_commands(platform)[i],
            ),
    ensures
        folder is Ok ==> OpenerModel::start(platform, folder).run(working).step()
            == OpenStepModel::Finished(Err(opener_failure(platform))),
        folder is Ok ==> OpenerModel::start(platform, folder).run(working).next == opener_commands(
            platform,
        ).len(),
        folder is Err ==> OpenerModel::start(platform, folder).run(working) == OpenerModel::start(
            platform,
            folder,
        ),
        folder is Err ==> OpenerModel::start(platform, folder).step() == OpenStepModel::Finished(
            Err(folder->Err_0),
        ),
{
    if folder is Ok {
        lemma_opener_run(
            OpenerModel::start(platform, folder),
            working,
            opener_commands(platform).len() as int,
        );
    }
}

} // verus!
