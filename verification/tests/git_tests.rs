use githut::git::{fetch_refspec, head_ref, remote_branch_ref, sparse_patterns};

#[test]
fn sparse_patterns_per_directory() {
    let dirs = vec!["/src/".to_string(), "docs".to_string(), "a/b/".to_string()];
    assert_eq!(sparse_patterns(&dirs), "src\ndocs\na/b\n");
}

#[test]
fn sparse_patterns_everything_without_directories() {
    assert_eq!(sparse_patterns(&Vec::new()), "/*\n");
}

#[test]
fn branch_references() {
    assert_eq!(fetch_refspec("main"), "refs/heads/main:refs/remotes/origin/main");
    assert_eq!(remote_branch_ref("dev"), "refs/remotes/origin/dev");
    assert_eq!(head_ref("dev"), "refs/heads/dev");
}
