use amphitheatre::schema::{BuildConfig, Configuration, DeployConfig, Pipeline, Profile, TestCase};

#[test]
fn schema_defaults_are_empty() {
    let c = Configuration::default();
    assert_eq!(c.api_version, "");
    assert_eq!(c.kind, "");
    assert_eq!(c.metadata.name, "");
    assert!(c.partners.is_none());
    assert!(c.pipeline.is_none());
    let p = Pipeline::default();
    assert!(p.build.is_none() && p.deploy.is_none());
    assert!(BuildConfig::default().artifacts.is_none());
    assert!(DeployConfig::default().status_check.is_none());
    assert_eq!(TestCase::default().image, "");
    assert_eq!(Profile::default().name, "");
}
