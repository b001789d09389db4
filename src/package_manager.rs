use vstd::prelude::*;

verus! {

/// The package managers whose workspace layout is understood.
#[derive(Debug, Clone, Copy, PartialEq, Eq, Structural)]
pub enum PackageManager {
    Berry,
    Npm,
    Pnpm,
    Pnpm6,
    Yarn,
}

/// The file in the workspace root that declares the workspace's package globs.
#[derive(Debug, Clone, Copy, PartialEq, Eq, Structural)]
pub enum WorkspaceManifest {
    /// `pnpm-workspace.yaml`, a YAML document with a `packages` list.
    PnpmWorkspaceYaml,
    /// `package.json`, a JSON document with a `workspaces` list.
    PackageJson,
}

/// Why a workspace's globs could not be given.
#[derive(Debug, Clone, Copy, PartialEq, Eq, Structural)]
pub enum WorkspaceError {
    /// The manifest declares no package globs.
    NoPackages(WorkspaceManifest),
}

impl WorkspaceManifest {
    pub open spec fn spec_file_name(&self) -> Seq<char> {
        match self {
            WorkspaceManifest::PnpmWorkspaceYaml => "pnpm-workspace.yaml"@,
            WorkspaceManifest::PackageJson => "package.json"@,
        }
    }

    /// The manifest's file name, relative to the workspace root.
    pub fn file_name(&self) -> (r: &'static str)
        ensures
            r@ == self.spec_file_name(),
    {
        match self {
            WorkspaceManifest::PnpmWorkspaceYaml => "pnpm-workspace.yaml",
            WorkspaceManifest::PackageJson => "package.json",
        }
    }
}

impl WorkspaceError {
    /// The message shown to the user.
    pub fn message(&self) -> (r: String)
        ensures
            r@ == "pnpm-workspace.yaml: no packages found. Turborepo requires pnpm workspaces and thus packages to be defined in the root pnpm-workspace.yaml"@,
    {
        "pnpm-workspace.yaml: no packages found. Turborepo requires pnpm workspaces and thus packages to be defined in the root pnpm-workspace.yaml".to_owned()
    }
}

impl PackageManager {
    pub open spec fn spec_workspace_manifest(&self) -> WorkspaceManifest {
        match self {
            PackageManager::Pnpm | PackageManager::Pnpm6 => WorkspaceManifest::PnpmWorkspaceYaml,
            _ => WorkspaceManifest::PackageJson,
        }
    }

    /// Which manifest declares the workspace: pnpm keeps it in
    /// `pnpm-workspace.yaml`, the others in `package.json`.
    pub fn workspace_manifest(&self) -> (r: WorkspaceManifest)
        ensures
            r == self.spec_workspace_manifest(),
    {
        match self {
            PackageManager::Pnpm | PackageManager::Pnpm6 => WorkspaceManifest::PnpmWorkspaceYaml,
            PackageManager::Berry | PackageManager::Npm | PackageManager::Yarn => {
                WorkspaceManifest::PackageJson
            },
        }
    }

    /// The workspace's package globs, given the list that its manifest
    /// declares; a workspace that declares none is an error.
    pub fn get_workspace_globs(&self, declared: Vec<String>) -> (r: Result<
        Vec<String>,
        WorkspaceError,
    >)
        ensures
            declared@.len() == 0 ==> r == Err::<Vec<String>, WorkspaceError>(
                WorkspaceError::NoPackages(self.spec_workspace_manifest()),
            ),
            declared@.len() > 0 ==> r == Ok::<Vec<String>, WorkspaceError>(declared),
    {
        if declared.len() == 0 {
            Err(WorkspaceError::NoPackages(self.workspace_manifest()))
        } else {
            Ok(declared)
        }
    }
}

} // verus!
