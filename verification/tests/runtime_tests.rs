use lekstack::runtime::{
    extract_plan, installed_versions, not_installed_message, php_relocations, php_release_of,
    redis_relocations, required_directories, runtime_downloads, shim_links, shims_are_php, tar_args,
    unzip_args, ExtractPlan,
};
use lekstack::install::find_txz;

fn s(v: &[&str]) -> Vec<String> {
    v.iter().map(|x| x.to_string()).collect()
}

#[test]
fn versions_are_listed_sorted_without_hidden() {
    let listed = installed_versions(s(&["8.3", ".tmp", "8.10", "7.4", "8.2", "", ".x"]));
    let mut expected = s(&["8.3", "8.10", "7.4", "8.2", ""]);
    expected.sort();
    assert_eq!(listed, expected);
    assert_eq!(installed_versions(s(&["b", "a", "b"])), s(&["a", "b", "b"]));
    assert!(installed_versions(Vec::new()).is_empty());
    assert_eq!(installed_versions(s(&["é", "z", "Z"])), s(&["Z", "z", "é"]));
}

#[test]
fn downloads() {
    let node = runtime_downloads("node", "20.1.0").unwrap();
    assert_eq!(node.len(), 1);
    assert_eq!(node[0].url, "https://nodejs.org/dist/v20.1.0/node-v20.1.0-linux-x64.tar.xz");
    assert_eq!(node[0].archive, "archive.tar.xz");
    let php = runtime_downloads("php", "8.4").unwrap();
    assert_eq!(php[0].url, "https://dl.static-php.dev/static-php-cli/bulk/php-8.4.17-cli-linux-x86_64.tar.gz");
    assert_eq!(php[1].url, "https://dl.static-php.dev/static-php-cli/bulk/php-8.4.17-fpm-linux-x86_64.tar.gz");
    assert_eq!(php[1].archive, "php-fpm.tar.gz");
    let bun = runtime_downloads("bun", "1.1.0").unwrap();
    assert_eq!(bun[0].url, "https://github.com/oven-sh/bun/releases/download/bun-v1.1.0/bun-linux-x64.zip");
    let nginx = runtime_downloads("nginx", "1.27.2").unwrap();
    assert_eq!(
        nginx[0].url,
        "https://github.com/jirutka/nginx-binaries/releases/download/1.27.2/nginx-1.27.2-x86_64-linux.tar.gz"
    );
    assert_eq!(runtime_downloads("redis", "x").unwrap()[0].archive, "redis.jar");
    assert_eq!(runtime_downloads("postgresql", "x").unwrap()[0].archive, "postgres.jar");
    assert_eq!(runtime_downloads("mariadb", "x").unwrap()[0].archive, "mariadb.tar.gz");
    assert!(runtime_downloads("ruby", "3").is_none());
    assert_eq!(php_release_of("8.2"), "8.2.30");
    assert_eq!(php_release_of("8.1"), "8.1");
}

#[test]
fn extraction() {
    assert!(matches!(extract_plan("bun", "archive.zip"), ExtractPlan::Unzip));
    assert!(matches!(extract_plan("redis", "redis.jar"), ExtractPlan::Jar));
    assert!(matches!(extract_plan("node", "archive.tar.xz"), ExtractPlan::Untar { strip_top: true }));
    assert!(matches!(extract_plan("php", "php-cli.tar.gz"), ExtractPlan::Untar { strip_top: false }));
    assert_eq!(tar_args("/a.tgz", "/d", true), vec!["-xf", "/a.tgz", "-C", "/d", "--strip-components=1"]);
    assert_eq!(tar_args("/a.tgz", "/d", false), vec!["-xf", "/a.tgz", "-C", "/d"]);
    assert_eq!(unzip_args("/a.zip", "/d"), vec!["/a.zip", "-d", "/d"]);
    assert_eq!(find_txz(&s(&["META-INF", "a.txz", "b.txz"])), Some(1));
    assert_eq!(find_txz(&s(&["x.tar"])), None);
}

#[test]
fn relocations_and_shims() {
    let php = php_relocations("/v");
    assert_eq!((php[0].from.as_str(), php[0].to.as_str()), ("/v/php", "/v/bin/php"));
    assert_eq!((php[1].from.as_str(), php[1].to.as_str()), ("/v/php-fpm", "/v/sbin/php-fpm"));
    let redis = redis_relocations("/v");
    assert_eq!(redis[0].to, "/v/bin/redis-server");
    assert_eq!(redis[1].from, "/v/redis-cli-7.4.1-linux-amd64");
    let node = shim_links("node", "/v", "/b");
    let pairs: Vec<(&str, &str)> = node.iter().map(|l| (l.source.as_str(), l.target.as_str())).collect();
    assert_eq!(pairs, vec![("/v/bin/node", "/b/node"), ("/v/bin/npm", "/b/npm"), ("/v/bin/npx", "/b/npx")]);
    let bun = shim_links("bun", "/v", "/b");
    assert_eq!(bun[1].target, "/b/bunx");
    assert_eq!(shim_links("php", "/v", "/b")[0].source, "/v/bin/php");
    assert!(shim_links("nginx", "/v", "/b").is_empty());
    assert!(shims_are_php("php"));
    assert!(!shims_are_php("node"));
    assert_eq!(not_installed_message("php", "8.9"), "Version php v8.9 is not installed.");
    assert_eq!(required_directories(), vec!["bin", "config", "logs", "pids", "valet", "versions", "data"]);
}
