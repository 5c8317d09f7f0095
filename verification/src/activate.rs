//! The hooks that keep the search path of a shell current.

use vstd::prelude::*;
use crate::commands::Shell;
use crate::text::{push_str, string_of};

verus! {

/// The hook for Nushell: before each prompt and on each change of
/// directory, the directory of the selected version is put in front of the
/// search path, and every other directory of a LilyPond is taken out.
pub open spec fn nu_hook_text() -> Seq<char> {
    "\n"@
        + "def --env thoth-hook [] {\n"@
        + "  if (command -v thoth | complete | get exit_code | into bool) {\n"@
        + "    return\n"@
        + "  }\n"@
        + "\n"@
        + "  let lilypond_path = (thoth update-path nu | split row \":\" | first)  \n"@
        + "\n"@
        + "  if ($lilypond_path | is-empty) {\n"@
        + "    return\n"@
        + "  }\n"@
        + "\n"@
        + "  $env.PATH = (\n"@
        + "    $env.PATH \n"@
        + "    | split row \":\" \n"@
        + "    | filter { |path| not (\"lilypond\" in $path) }\n"@
        + "  )\n"@
        + "\n"@
        + "  $env.PATH = ($env.PATH | prepend $lilypond_path)\n"@
        + "}\n"@
        + "\n"@
        + "export-env {\n"@
        + "  $env.config = (\n"@
        + "    $env.config \n"@
        + "    | upsert hooks {\n"@
        + "      pre_prompt: (\n"@
        + "        $env.config.hooks.pre_prompt ++ [\n"@
        + "          { || thoth-hook }\n"@
        + "        ]\n"@
        + "      )\n"@
        + "      env_change: {\n"@
        + "        PWD: (\n"@
        + "          $env.config.hooks.env_change.PWD ++ [\n"@
        + "            { || thoth-hook }\n"@
        + "          ]\n"@
        + "        )\n"@
        + "      }\n"@
        + "  })\n"@
        + "}"@
}

/// The hook for Nushell: before each prompt and on each change of
/// directory, the directory of the selected version is put in front of the
/// search path, and every other directory of a LilyPond is taken out.
pub fn nu_hook() -> (script: String)
    ensures
        script@ == nu_hook_text(),
{
    let mut out: Vec<char> = Vec::new();
    push_str(&mut out, "\n");
    push_str(&mut out, "def --env thoth-hook [] {\n");
    push_str(&mut out, "  if (command -v thoth | complete | get exit_code | into bool) {\n");
    push_str(&mut out, "    return\n");
    push_str(&mut out, "  }\n");
    push_str(&mut out, "\n");
    push_str(
        &mut out,
        "  let lilypond_path = (thoth update-path nu | split row \":\" | first)  \n",
    );
    push_str(&mut out, "\n");
    push_str(&mut out, "  if ($lilypond_path | is-empty) {\n");
    push_str(&mut out, "    return\n");
    push_str(&mut out, "  }\n");
    push_str(&mut out, "\n");
    push_str(&mut out, "  $env.PATH = (\n");
    push_str(&mut out, "    $env.PATH \n");
    push_str(&mut out, "    | split row \":\" \n");
    push_str(&mut out, "    | filter { |path| not (\"lilypond\" in $path) }\n");
    push_str(&mut out, "  )\n");
    push_str(&mut out, "\n");
    push_str(&mut out, "  $env.PATH = ($env.PATH | prepend $lilypond_path)\n");
    push_str(&mut out, "}\n");
    push_str(&mut out, "\n");
    push_str(&mut out, "export-env {\n");
    push_str(&mut out, "  $env.config = (\n");
    push_str(&mut out, "    $env.config \n");
    push_str(&mut out, "    | upsert hooks {\n");
    push_str(&mut out, "      pre_prompt: (\n");
    push_str(&mut out, "        $env.config.hooks.pre_prompt ++ [\n");
    push_str(&mut out, "          { || thoth-hook }\n");
    push_str(&mut out, "        ]\n");
    push_str(&mut out, "      )\n");
    push_str(&mut out, "      env_change: {\n");
    push_str(&mut out, "        PWD: (\n");
    push_str(&mut out, "          $env.config.hooks.env_change.PWD ++ [\n");
    push_str(&mut out, "            { || thoth-hook }\n");
    push_str(&mut out, "          ]\n");
    push_str(&mut out, "        )\n");
    push_str(&mut out, "      }\n");
    push_str(&mut out, "  })\n");
    push_str(&mut out, "}");
    assert(out@ =~= nu_hook_text());
    string_of(&out)
}
/// The hook for Zsh: before each prompt and on each change of directory,
/// the search path is replaced by the one the tool prints.
pub open spec fn zsh_hook_text() -> Seq<char> {
    "_thoth_update_path() {\n"@
        + "    export PATH=\"$(\"${HOME}\"/.cargo/bin/thoth update-path zsh)\"\n"@
        + "}\n"@
        + "\n"@
        + "typeset -ag precmd_functions;\n"@
        + "\n"@
        + "if [[ -z \"${precmd_functions[(r)_thoth_update_path]+1}\" ]]; then\n"@
        + "  precmd_functions=( _thoth_update_path ${precmd_functions[@]} )\n"@
        + "fi\n"@
        + "\n"@
        + "typeset -ag chpwd_functions;\n"@
        + "\n"@
        + "if [[ -z \"${chpwd_functions[(r)_thoth_update_path]+1}\" ]]; then\n"@
        + "  chpwd_functions=( _thoth_update_path ${chpwd_functions[@]} )\n"@
        + "fi"@
}

/// The hook for Zsh: before each prompt and on each change of directory,
/// the search path is replaced by the one the tool prints.
pub fn zsh_hook() -> (script: String)
    ensures
        script@ == zsh_hook_text(),
{
    let mut out: Vec<char> = Vec::new();
    push_str(&mut out, "_thoth_update_path() {\n");
    push_str(&mut out, "    export PATH=\"$(\"${HOME}\"/.cargo/bin/thoth update-path zsh)\"\n");
    push_str(&mut out, "}\n");
    push_str(&mut out, "\n");
    push_str(&mut out, "typeset -ag precmd_functions;\n");
    push_str(&mut out, "\n");
    push_str(&mut out, "if [[ -z \"${precmd_functions[(r)_thoth_update_path]+1}\" ]]; then\n");
    push_str(&mut out, "  precmd_functions=( _thoth_update_path ${precmd_functions[@]} )\n");
    push_str(&mut out, "fi\n");
    push_str(&mut out, "\n");
    push_str(&mut out, "typeset -ag chpwd_functions;\n");
    push_str(&mut out, "\n");
    push_str(&mut out, "if [[ -z \"${chpwd_functions[(r)_thoth_update_path]+1}\" ]]; then\n");
    push_str(&mut out, "  chpwd_functions=( _thoth_update_path ${chpwd_functions[@]} )\n");
    push_str(&mut out, "fi");
    assert(out@ =~= zsh_hook_text());
    string_of(&out)
}
/// The hook that keeps the search path of `shell` current.
pub fn activate(shell: &Shell) -> (script: String)
    ensures
        script@ == (match *shell {
            Shell::Nu => nu_hook_text(),
            Shell::Zsh => zsh_hook_text(),
        }),
{
    match shell {
        Shell::Nu => nu_hook(),
        Shell::Zsh => zsh_hook(),
    }
}

} // verus!
