use amphitheatre::resources::secret::{resource, Authorization, Credential, Kind};
use amphitheatre::services::PlaybookService;

#[test]
fn kind_and_authorization_schemas() {
    assert_eq!(Kind::Image.to_string(), "Image");
    assert_eq!(Kind::Source.to_string(), "Source");
    assert_eq!(Kind::Image.schema_name(), "kpack.io/docker");
    assert_eq!(Kind::Source.schema_name(), "kpack.io/git");
    assert_eq!(Authorization::Basic.schema_name(), "kubernetes.io/basic-auth");
    assert_eq!(Authorization::Token.schema_name(), "kubernetes.io/ssh-auth");
}

#[test]
fn basic_credential() {
    let c = Credential::basic(Kind::Image, "Harbor.Example.COM".into(), "admin".into(), "pw".into());
    assert_eq!(c.name(), "image-harbor.example.com-secret");
    assert_eq!(c.username_any(), "admin");
    assert_eq!(c.password_any(), "pw");
    assert_eq!(c.token_any(), "");
    assert!(matches!(c.kind, Kind::Image));
}

#[test]
fn token_credential() {
    let c = Credential::token(Kind::Source, "github.com".into(), "key".into());
    assert_eq!(c.name(), "source-github.com-secret");
    assert_eq!(c.username_any(), "");
    assert_eq!(c.password_any(), "");
    assert_eq!(c.token_any(), "key");
}

#[test]
fn secret_resource_of_credentials() {
    let c = Credential::basic(Kind::Image, "harbor.local".into(), "admin".into(), "pw".into());
    let s = resource(&c);
    assert_eq!(s.name, "image-harbor.local-secret");
    assert_eq!(s.type_, "kubernetes.io/basic-auth");
    assert_eq!(s.annotations, vec![("kpack.io/docker".to_string(), "harbor.local".to_string())]);
    assert_eq!(
        s.string_data,
        vec![("password".to_string(), "pw".to_string()), ("username".to_string(), "admin".to_string())]
    );

    let c = Credential::token(Kind::Source, "github.com".into(), "key".into());
    let s = resource(&c);
    assert_eq!(s.type_, "kubernetes.io/ssh-auth");
    assert_eq!(s.annotations, vec![("kpack.io/git".to_string(), "github.com".to_string())]);
    assert_eq!(s.string_data, vec![("ssh-privatekey".to_string(), "key".to_string())]);
}

#[test]
fn playbook_service_namespaces_and_credential() {
    assert_eq!(PlaybookService::namespace_of(&"42".to_string()), "amp-42");
    let (id, ns) = PlaybookService::allocate();
    assert_eq!(ns, format!("amp-{}", id));
    assert_eq!(id.len(), 36);
    for (i, c) in id.chars().enumerate() {
        if [8, 13, 18, 23].contains(&i) {
            assert_eq!(c, '-');
        } else {
            assert!(c.is_ascii_digit() || ('a'..='f').contains(&c));
        }
    }
    assert_eq!(id.chars().nth(14), Some('4'));
    assert!("89ab".contains(id.chars().nth(19).unwrap()));
    let (id2, _) = PlaybookService::allocate();
    assert_ne!(id, id2);
    let c = PlaybookService::registry_credential();
    assert_eq!(c.name(), "image-harbor.amp-system.svc.cluster.local-secret");
    assert_eq!(c.username_any(), "admin");
    assert_eq!(c.password_any(), "Harbor12345");
}
