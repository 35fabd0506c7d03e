use user_api::dto::{CreateUserDto, UpdateUserDto, UserResponseDto};
use user_api::error::DomainError;
use user_api::memory::MemoryUserRepository;
use user_api::repository::UserRepository;
use user_api::service::{UserService, UserServiceImpl};
use user_api::use_cases::{
    CreateUserUseCase, GetAllUsersUseCase, GetUserUseCase, RemoveUserUseCase, UpdateUserUseCase,
};
use user_api::user::User;

type Service = UserServiceImpl<MemoryUserRepository>;

fn empty_service() -> Service {
    UserServiceImpl::new(MemoryUserRepository::new())
}

fn create(service: Service, name: &str, email: &str) -> (Service, Result<UserResponseDto, DomainError>) {
    let mut use_case = CreateUserUseCase::new(service);
    let r = use_case.execute(CreateUserDto { name: name.to_string(), email: email.to_string() });
    (use_case.into_service(), r)
}

fn read(service: Service, id: u32) -> (Service, Option<UserResponseDto>) {
    let use_case = GetUserUseCase::new(service);
    let r = use_case.execute(id);
    (use_case.into_service(), r)
}

fn list(service: Service) -> (Service, Vec<UserResponseDto>) {
    let use_case = GetAllUsersUseCase::new(service);
    let r = use_case.execute();
    (use_case.into_service(), r)
}

fn remove(service: Service, id: u32) -> (Service, Result<UserResponseDto, DomainError>) {
    let mut use_case = RemoveUserUseCase::new(service);
    let r = use_case.execute(id);
    (use_case.into_service(), r)
}

fn update(service: Service, id: u32, name: &str, email: &str) -> (Service, Result<UserResponseDto, DomainError>) {
    let mut use_case = UpdateUserUseCase::new(service);
    let r = use_case.execute(UpdateUserDto { id, name: name.to_string(), email: email.to_string() });
    (use_case.into_service(), r)
}

#[test]
fn full_scenario_on_an_empty_store() {
    let s = empty_service();
    let (s, john) = create(s, "John", "john@email.com");
    assert_eq!(john.unwrap().id, 0);
    let (s, jane) = create(s, "Jane", "jane@email.com");
    assert_eq!(jane.unwrap().id, 1);
    let (s, all) = list(s);
    assert_eq!(all.len(), 2);
    assert_eq!((all[0].id, all[0].name.as_str(), all[0].email.as_str()), (0, "John", "john@email.com"));
    assert_eq!((all[1].id, all[1].name.as_str(), all[1].email.as_str()), (1, "Jane", "jane@email.com"));
    let last = s.get_last_user().unwrap();
    assert_eq!(last, User::new(1, "Jane".to_string(), "jane@email.com".to_string()));
    let (s, updated) = update(s, 0, "John Doe", "john-doe@email.com");
    assert!(updated.is_ok());
    let (_, john) = read(s, 0);
    let john = john.unwrap();
    assert_eq!((john.id, john.name.as_str(), john.email.as_str()), (0, "John Doe", "john-doe@email.com"));
}

#[test]
fn malformed_email_is_refused_and_nothing_is_stored() {
    let s = empty_service();
    let (s, r) = create(s, "X", "bad-email");
    assert_eq!(r.unwrap_err(), DomainError::Validation);
    let (_, all) = list(s);
    assert!(all.is_empty());
}

#[test]
fn created_user_reads_back_equal() {
    let s = empty_service();
    let (s, _) = create(s, "Ann", "ann@site.org");
    let (s, r) = create(s, "Bob", "bob@site.org");
    let id = r.unwrap().id;
    let (_, found) = read(s, id);
    let found = found.unwrap();
    assert_eq!((found.id, found.name.as_str(), found.email.as_str()), (1, "Bob", "bob@site.org"));
}

#[test]
fn email_without_at_or_dot_is_refused_on_a_full_store() {
    let s = empty_service();
    let (s, _) = create(s, "Ann", "ann@site.org");
    let (s, r1) = create(s, "Bob", "bob@siteorg");
    let (s, r2) = create(s, "Bob", "bob.site.org");
    assert_eq!(r1.unwrap_err(), DomainError::Validation);
    assert_eq!(r2.unwrap_err(), DomainError::Validation);
    let (_, all) = list(s);
    assert_eq!(all.len(), 1);
}

#[test]
fn ids_rise_one_by_one() {
    let mut s = empty_service();
    for expected in 0..5u32 {
        let (next, r) = create(s, "U", "u@x.io");
        assert_eq!(r.unwrap().id, expected);
        s = next;
    }
}

#[test]
fn next_id_follows_the_last_record() {
    let mut repository = MemoryUserRepository::new();
    repository.save_user(&User::new(41, "A".to_string(), "a@x.io".to_string())).unwrap();
    let s = UserServiceImpl::new(repository);
    let (_, r) = create(s, "B", "b@x.io");
    assert_eq!(r.unwrap().id, 42);
}

#[test]
fn used_up_identifiers_give_a_storage_error() {
    let mut repository = MemoryUserRepository::new();
    repository.save_user(&User::new(u32::MAX, "A".to_string(), "a@x.io".to_string())).unwrap();
    let s = UserServiceImpl::new(repository);
    let (s, r) = create(s, "B", "b@x.io");
    assert!(matches!(r, Err(DomainError::Storage(_))));
    let (s, r) = create(s, "B", "bad");
    assert_eq!(r.unwrap_err(), DomainError::Validation);
    let (_, all) = list(s);
    assert_eq!(all.len(), 1);
}

#[test]
fn delete_missing_then_present() {
    let s = empty_service();
    let (s, _) = create(s, "Ann", "ann@site.org");
    let (s, r) = remove(s, 9);
    assert_eq!(r.unwrap_err(), DomainError::NotFound);
    let (s, r) = remove(s, 0);
    let gone = r.unwrap();
    assert_eq!((gone.id, gone.name.as_str()), (0, "Ann"));
    let (s, found) = read(s, 0);
    assert!(found.is_none());
    let (_, r) = remove(s, 0);
    assert_eq!(r.unwrap_err(), DomainError::NotFound);
}

#[test]
fn update_missing_then_present() {
    let s = empty_service();
    let (s, r) = update(s, 0, "Ann", "ann@site.org");
    assert_eq!(r.unwrap_err(), DomainError::NotFound);
    let (s, _) = create(s, "Ann", "ann@site.org");
    let (s, r) = update(s, 0, "Anna", "anna@site.org");
    let r = r.unwrap();
    assert_eq!((r.id, r.name.as_str(), r.email.as_str()), (0, "Anna", "anna@site.org"));
    let (_, found) = read(s, 0);
    assert_eq!(found.unwrap().name, "Anna");
}

#[test]
fn update_with_malformed_email_is_refused() {
    let s = empty_service();
    let (s, _) = create(s, "Ann", "ann@site.org");
    let (s, r) = update(s, 0, "Ann", "ann-at-site");
    assert_eq!(r.unwrap_err(), DomainError::Validation);
    let (_, found) = read(s, 0);
    assert_eq!(found.unwrap().email, "ann@site.org");
}

#[test]
fn ids_continue_after_deleting_the_last_record() {
    let s = empty_service();
    let (s, _) = create(s, "A", "a@x.io");
    let (s, _) = create(s, "B", "b@x.io");
    let (s, _) = remove(s, 1);
    let (_, r) = create(s, "C", "c@x.io");
    assert_eq!(r.unwrap().id, 1);
}

#[test]
fn service_refuses_malformed_email_before_saving() {
    let mut s = empty_service();
    let r = s.create_user(5, "A".to_string(), "nope".to_string());
    assert_eq!(r, Err(DomainError::Validation));
    assert!(s.list_all_users().is_empty());
    let r = s.create_user(5, "A".to_string(), "a@x.io".to_string());
    assert_eq!(r.unwrap().id, 5);
    assert_eq!(s.find_user_by_id(5).unwrap().name, "A");
    assert_eq!(s.update_user(5, "B".to_string(), "b@x.io".to_string()).unwrap().name, "B");
    assert_eq!(s.remove_user(5).unwrap().name, "B");
    assert!(s.into_repository().list_users().is_empty());
}

#[test]
fn response_dto_holds_its_parts() {
    let d = UserResponseDto::new(3, "Ann".to_string(), "ann@x.io".to_string());
    assert_eq!((d.id, d.name.as_str(), d.email.as_str()), (3, "Ann", "ann@x.io"));
}

#[test]
fn next_user_follows_the_last_record() {
    let first = user_api::use_cases::next_user(None, "A".to_string(), "a@x.io".to_string()).unwrap();
    assert_eq!((first.id, first.name.as_str(), first.email.as_str()), (0, "A", "a@x.io"));
    let last = User::new(9, "Z".to_string(), "z@x.io".to_string());
    let next = user_api::use_cases::next_user(Some(last), "B".to_string(), "b@x.io".to_string()).unwrap();
    assert_eq!(next.id, 10);
    let refused = user_api::use_cases::next_user(None, "C".to_string(), "c-at-x".to_string());
    assert_eq!(refused, Err(DomainError::Validation));
    let top = User::new(u32::MAX, "Z".to_string(), "z@x.io".to_string());
    let full = user_api::use_cases::next_user(Some(top), "D".to_string(), "d@x.io".to_string());
    assert!(matches!(full, Err(DomainError::Storage(_))));
}

#[test]
fn validated_user_keeps_its_parts() {
    let u = User::validated(4, "Ann".to_string(), "ann@x.io".to_string()).unwrap();
    assert_eq!((u.id, u.name.as_str(), u.email.as_str()), (4, "Ann", "ann@x.io"));
    assert_eq!(User::validated(4, "Ann".to_string(), "ann".to_string()), Err(DomainError::Validation));
}
