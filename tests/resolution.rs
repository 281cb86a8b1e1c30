use qemu_launch::{
    code_candidate_paths, first_existing, join_path, system_ovmf_paths, target_ovmf_dir,
    vars_candidate_paths, writable_vars_name, writable_vars_path, Candidate, ResolveError,
};

fn cands(list: &[(&str, bool)]) -> Vec<Candidate> {
    list.iter()
        .map(|(p, e)| Candidate { path: p.to_string(), exists: *e })
        .collect()
}

#[test]
fn first_candidate_preferred_when_both_exist() {
    let cs = cands(&[("/a/OVMF_CODE_4M.fd", true), ("/a/OVMF_CODE.fd", true)]);
    assert_eq!(first_existing(&cs), Some("/a/OVMF_CODE_4M.fd".to_string()));
}

#[test]
fn falls_back_to_legacy_code_image() {
    let cs = cands(&[("/a/OVMF_CODE_4M.fd", false), ("/a/OVMF_CODE.fd", true)]);
    assert_eq!(first_existing(&cs), Some("/a/OVMF_CODE.fd".to_string()));
}

#[test]
fn nothing_selected_when_no_candidate_exists() {
    let cs = cands(&[("/a/OVMF_CODE_4M.fd", false), ("/a/OVMF_CODE.fd", false)]);
    assert_eq!(first_existing(&cs), None);
    assert_eq!(first_existing(&Vec::new()), None);
}

#[test]
fn resolves_both_roles() {
    let code = cands(&[("/a/OVMF_CODE_4M.fd", false), ("/a/OVMF_CODE.fd", true)]);
    let vars = cands(&[("/a/OVMF_VARS_4M.fd", true), ("/a/OVMF_VARS.fd", true)]);
    let pair = system_ovmf_paths(&code, &vars).unwrap();
    assert_eq!(pair.code, "/a/OVMF_CODE.fd");
    assert_eq!(pair.vars, "/a/OVMF_VARS_4M.fd");
}

#[test]
fn missing_code_image_reported_first() {
    let code = cands(&[("/a/OVMF_CODE_4M.fd", false), ("/a/OVMF_CODE.fd", false)]);
    let vars = cands(&[("/a/OVMF_VARS_4M.fd", false)]);
    assert_eq!(system_ovmf_paths(&code, &vars).err(), Some(ResolveError::CodeNotFound));
}

#[test]
fn missing_vars_template_reported() {
    let code = cands(&[("/a/OVMF_CODE.fd", true)]);
    let vars = cands(&[("/a/OVMF_VARS_4M.fd", false), ("/a/OVMF_VARS.fd", false)]);
    assert_eq!(system_ovmf_paths(&code, &vars).err(), Some(ResolveError::VarsNotFound));
}

#[test]
fn host_candidate_lists_prefer_4m_variant() {
    assert_eq!(
        code_candidate_paths(),
        vec!["/usr/share/OVMF/OVMF_CODE_4M.fd".to_string(), "/usr/share/OVMF/OVMF_CODE.fd".to_string()]
    );
    assert_eq!(
        vars_candidate_paths(),
        vec!["/usr/share/OVMF/OVMF_VARS_4M.fd".to_string(), "/usr/share/OVMF/OVMF_VARS.fd".to_string()]
    );
}

#[test]
fn join_inserts_separator_only_where_needed() {
    assert_eq!(join_path("/out", "ovmf"), "/out/ovmf");
    assert_eq!(join_path("/out/", "ovmf"), "/out/ovmf");
    assert_eq!(join_path("", "ovmf"), "ovmf");
}

#[test]
fn scratch_dir_defaults_to_target() {
    assert_eq!(target_ovmf_dir(None), "target/ovmf");
    assert_eq!(target_ovmf_dir(Some("/build/out")), "/build/out/ovmf");
}

#[test]
fn staged_names_differ_per_variant() {
    assert_eq!(writable_vars_name("OVMF_VARS_4M.fd"), "OVMF_VARS_4M.writable.fd");
    assert_eq!(writable_vars_name("OVMF_VARS.fd"), "OVMF_VARS.writable.fd");
    assert_ne!(writable_vars_name("OVMF_VARS_4M.fd"), writable_vars_name("OVMF_VARS.fd"));
    assert_eq!(writable_vars_name(""), "OVMF_VARS.writable.fd");
    assert_eq!(writable_vars_name("_4"), "OVMF_VARS.writable.fd");
    assert_eq!(writable_vars_name("_4M"), "OVMF_VARS_4M.writable.fd");
}

#[test]
fn staged_path_for_4m_template() {
    assert_eq!(
        writable_vars_path("/out/ovmf", "/a/OVMF_VARS_4M.fd"),
        "/out/ovmf/OVMF_VARS_4M.writable.fd"
    );
}

#[test]
fn staged_name_reads_only_the_file_name() {
    assert_eq!(writable_vars_path("/out", "/fw_4M/OVMF_VARS.fd"), "/out/OVMF_VARS.writable.fd");
    assert_eq!(writable_vars_path("/out", "/"), "/out/OVMF_VARS.writable.fd");
}
