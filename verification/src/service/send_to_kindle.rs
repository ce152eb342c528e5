//! The delivery service.
//!
//! The service decides the order of the work and where it ends: mark, then
//! rewrite each article, then send. The contract of `send` says which calls
//! are made on the repositories, each on the repository as the call before
//! left it, which repositories are left untouched where the work ends
//! early, and how the result follows from the answers.

use crate::domain::repository::kindle;
use crate::domain::repository::kindle::KindleRepository;
use crate::domain::repository::pocket::{MarkAsSentInput, PocketRepository};
use crate::domain::repository::readability::{
    ConvertInput, ConvertOutput, ReadabilityRepository,
};
use crate::domain::service::send_to_kindle::{SendInput, SendOutput, SendToKindleService};
use crate::domain::{Article, ArticleId};
use crate::error::SessionError;
use crate::repository::pocket::data::id_views;
use vstd::prelude::*;

verus! {

/// The delivery service over its three repositories.
pub struct SendToKindleServiceImpl<K: KindleRepository, P: PocketRepository, R: ReadabilityRepository> {
    kindle_repository: K,
    pocket_repository: P,
    readability_repository: R,
}

/// The identifiers of `articles`, in order.
pub open spec fn ids_of(articles: Seq<Article>) -> Seq<Seq<char>> {
    articles.map_values(|a: Article| a.id@)
}

/// Whether `inputs`, `results` and `states` can be the record of rewriting
/// the first articles of `articles`, in order and up to the first failure:
/// the renderer was asked for one article after the other, `states` are the
/// states that it went through, and only the last answer may be a failure.
pub open spec fn rewriting_fits<R>(
    articles: Seq<Article>,
    inputs: Seq<ConvertInput>,
    results: Seq<Result<ConvertOutput, SessionError>>,
    states: Seq<R>,
) -> bool {
    &&& inputs.len() == results.len()
    &&& states.len() == results.len() + 1
    &&& results.len() <= articles.len()
    &&& forall|i: int| 0 <= i < results.len() ==> (#[trigger] inputs[i]).article@ == articles[i]@
    &&& forall|i: int| 0 <= i < results.len() - 1 ==> (#[trigger] results[i]) is Ok
}

/// Whether the renderer was asked a `k`-th time in the record `results`.
pub open spec fn asked_at(results: Seq<Result<ConvertOutput, SessionError>>, k: int) -> bool {
    0 <= k < results.len()
}

/// Whether rewriting ended in a failure.
pub open spec fn rewriting_failed(results: Seq<Result<ConvertOutput, SessionError>>) -> bool {
    results.len() > 0 && results.last() is Err
}

/// Whether `parcel` holds the rewritten articles of `results`, in order.
pub open spec fn parcel_fits(
    parcel: kindle::SendInput,
    results: Seq<Result<ConvertOutput, SessionError>>,
) -> bool {
    &&& parcel.articles@.len() == results.len()
    &&& forall|i: int|
        0 <= i < results.len() ==> ((#[trigger] results[i]) matches Ok(out)
            && parcel.articles@[i] == out.article)
}

/// What `send` returns where the reader device answered `sent`.
pub open spec fn sent_follows(
    sent: Result<(), SessionError>,
    output: Result<SendOutput, SessionError>,
) -> bool {
    match sent {
        Ok(_) => output is Ok,
        Err(e) => output == Err::<SendOutput, SessionError>(e),
    }
}

/// Collects the identifiers of the articles, in order.
pub fn article_ids(articles: &Vec<Article>) -> (ids: Vec<ArticleId>)
    ensures
        id_views(ids@) == ids_of(articles@),
{
    let mut ids: Vec<ArticleId> = Vec::new();
    let mut i: usize = 0;
    while i < articles.len()
        invariant
            i <= articles.len(),
            ids@.len() == i,
            id_views(ids@) == ids_of(articles@.take(i as int)),
        decreases articles.len() - i,
    {
        let ghost before = id_views(ids@);
        ids.push(articles[i].id.clone());
        assert(id_views(ids@) =~= before.push(articles@[i as int].id@));
        assert(ids_of(articles@.take(i + 1)) =~= ids_of(articles@.take(i as int)).push(
            articles@[i as int].id@,
        ));
        i += 1;
    }
    assert(articles@.take(i as int) =~= articles@);
    ids
}

impl<K: KindleRepository, P: PocketRepository, R: ReadabilityRepository> SendToKindleServiceImpl<
    K,
    P,
    R,
> {
    /// The repository of the reader device.
    pub closed spec fn device(&self) -> K {
        self.kindle_repository
    }

    /// The repository of the article service.
    pub closed spec fn pocket(&self) -> P {
        self.pocket_repository
    }

    /// The repository of the renderer.
    pub closed spec fn renderer(&self) -> R {
        self.readability_repository
    }

    /// A service over the given repositories.
    pub fn new(
        kindle_repository: K,
        pocket_repository: P,
        readability_repository: R,
    ) -> (service: Self)
        ensures
            service.device() == kindle_repository,
            service.pocket() == pocket_repository,
            service.renderer() == readability_repository,
    {
        SendToKindleServiceImpl { kindle_repository, pocket_repository, readability_repository }
    }
}

impl<
    K: KindleRepository,
    P: PocketRepository,
    R: ReadabilityRepository,
> SendToKindleService for SendToKindleServiceImpl<K, P, R> {
    /// Marks the articles as delivered, rewrites each into its readable
    /// contents, in order, and sends them on as one document.
    ///
    /// The articles are marked first, all at once. Where that fails, the
    /// failure is handed on, and neither the renderer nor the device is
    /// asked anything. Otherwise the renderer is asked for one article
    /// after the other, each time as the call before left it. The first
    /// failure ends the work and is handed on, and the device is not asked
    /// anything. Only where every article was rewritten is the device
    /// asked, once, to send them in their order, and the answer is its
    /// answer.
    fn send(&mut self, input: SendInput) -> (output: Result<SendOutput, SessionError>)
        ensures
            exists|marking: &mut P, mark: MarkAsSentInput, marked: Result<(), SessionError>|
                {
                    &&& #[trigger] call_ensures(P::mark_as_sent, (marking, mark), marked)
                    &&& *marking == old(self).pocket()
                    &&& *final(marking) == final(self).pocket()
                    &&& id_views(mark.ids@) == ids_of(input.articles@)
                    &&& match marked {
                        Err(e) => {
                            &&& output == Err::<SendOutput, SessionError>(e)
                            &&& final(self).renderer() == old(self).renderer()
                            &&& final(self).device() == old(self).device()
                        },
                        Ok(_) => exists|
                            inputs: Seq<ConvertInput>,
                            results: Seq<Result<ConvertOutput, SessionError>>,
                            states: Seq<R>,
                        |
                            {
                                &&& #[trigger] rewriting_fits(
                                    input.articles@,
                                    inputs,
                                    results,
                                    states,
                                )
                                &&& states[0] == old(self).renderer()
                                &&& states.last() == final(self).renderer()
                                &&& forall|i: int|
                                    #[trigger] asked_at(results, i) ==> exists|rewriting: &mut R|
                                        {
                                            &&& #[trigger] call_ensures(
                                                R::convert,
                                                (rewriting, inputs[i]),
                                                results[i],
                                            )
                                            &&& *rewriting == states[i]
                                            &&& *final(rewriting) == states[i + 1]
                                        }
                                &&& if rewriting_failed(results) {
                                    &&& output == Err::<SendOutput, SessionError>(
                                        results.last()->Err_0,
                                    )
                                    &&& final(self).device() == old(self).device()
                                } else {
                                    &&& results.len() == input.articles@.len()
                                    &&& exists|
                                        sending: &mut K,
                                        parcel: kindle::SendInput,
                                        sent: Result<(), SessionError>,
                                    |
                                        {
                                            &&& #[trigger] call_ensures(
                                                K::send,
                                                (sending, parcel),
                                                sent,
                                            )
                                            &&& *sending == old(self).device()
                                            &&& *final(sending) == final(self).device()
                                            &&& parcel_fits(parcel, results)
                                            &&& sent_follows(sent, output)
                                        }
                                }
                            },
                    }
                },
    {
        let ghost articles = input.articles@;
        let ghost device = self.kindle_repository;
        let ghost renderer = self.readability_repository;
        let ghost pocket = self.pocket_repository;
        let ids = article_ids(&input.articles);
        let mark = MarkAsSentInput { ids };
        let ghost given = mark;
        let marked = self.pocket_repository.mark_as_sent(mark);
        let ghost marked_pocket = self.pocket_repository;
        match marked {
            Ok(_) => {},
            Err(e) => {
                return Err(e);
            },
        }
        let mut articles_with_content: Vec<Article> = Vec::new();
        let ghost mut inputs: Seq<ConvertInput> = Seq::empty();
        let ghost mut results: Seq<Result<ConvertOutput, SessionError>> = Seq::empty();
        let ghost mut states: Seq<R> = seq![renderer];
        let mut i: usize = 0;
        while i < input.articles.len()
            invariant
                i <= input.articles.len(),
                articles == input.articles@,
                device == old(self).device(),
                renderer == old(self).renderer(),
                pocket == old(self).pocket(),
                self.kindle_repository == device,
                self.pocket_repository == marked_pocket,
                marked is Ok,
                id_views(given.ids@) == ids_of(articles),
                exists|marking: &mut P|
                    {
                        &&& #[trigger] call_ensures(P::mark_as_sent, (marking, given), marked)
                        &&& *marking == pocket
                        &&& *final(marking) == marked_pocket
                    },
                articles_with_content@.len() == i,
                results.len() == i,
                rewriting_fits(articles, inputs, results, states),
                states[0] == renderer,
                states.last() == self.readability_repository,
                forall|k: int| 0 <= k < i ==> (#[trigger] results[k]) is Ok,
                parcel_fits(kindle::SendInput { articles: articles_with_content }, results),
                forall|k: int|
                    #[trigger] asked_at(results, k) ==> exists|rewriting: &mut R|
                        {
                            &&& #[trigger] call_ensures(
                                R::convert,
                                (rewriting, inputs[k]),
                                results[k],
                            )
                            &&& *rewriting == states[k]
                            &&& *final(rewriting) == states[k + 1]
                        },
            decreases input.articles.len() - i,
        {
            let article = input.articles[i].clone();
            let asked = ConvertInput { article };
            let ghost asking = asked;
            let ghost before = self.readability_repository;
            let answer = self.readability_repository.convert(asked);
            proof {
                let earlier_inputs = inputs;
                let earlier = results;
                let earlier_states = states;
                inputs = inputs.push(asking);
                results = results.push(answer);
                states = states.push(self.readability_repository);
                assert(exists|rewriting: &mut R|
                    {
                        &&& #[trigger] call_ensures(R::convert, (rewriting, asking), answer)
                        &&& *rewriting == before
                        &&& *final(rewriting) == self.readability_repository
                    });
                assert forall|k: int| #[trigger] asked_at(results, k) implies exists|
                    rewriting: &mut R,
                |
                    {
                        &&& #[trigger] call_ensures(R::convert, (rewriting, inputs[k]), results[k])
                        &&& *rewriting == states[k]
                        &&& *final(rewriting) == states[k + 1]
                    } by {
                    if k < earlier.len() {
                        assert(asked_at(earlier, k));
                        assert(earlier[k] == results[k]);
                        assert(inputs[k] == earlier_inputs[k]);
                        assert(states[k] == earlier_states[k]);
                        assert(states[k + 1] == earlier_states[k + 1]);
                    } else {
                        assert(inputs[k] == asking);
                        assert(results[k] == answer);
                        assert(states[k] == before);
                        assert(states[k + 1] == self.readability_repository);
                    }
                }
                assert forall|k: int| 0 <= k < results.len() implies (#[trigger] inputs[k]).article@
                    == articles[k]@ by {
                    if k < earlier.len() {
                        assert(inputs[k] == earlier_inputs[k]);
                    }
                }
                assert forall|k: int| 0 <= k < results.len() - 1 implies (#[trigger] results[k]) is Ok by {
                    assert(results[k] == earlier[k]);
                }
                assert(rewriting_fits(articles, inputs, results, states));
            }
            match answer {
                Ok(ret) => {
                    let ghost sofar = articles_with_content@;
                    articles_with_content.push(ret.article);
                    proof {
                        assert forall|k: int| 0 <= k < results.len() implies ((
                        #[trigger] results[k]) matches Ok(out) && articles_with_content@[k]
                            == out.article) by {
                            if k < sofar.len() {
                                assert(articles_with_content@[k] == sofar[k]);
                            }
                        }
                    }
                },
                Err(e) => {
                    proof {
                        assert(results.last() == answer);
                        assert(rewriting_failed(results));
                    }
                    return Err(e);
                },
            }
            i += 1;
        }
        proof {
            assert(!rewriting_failed(results)) by {
                if results.len() > 0 {
                    assert(results[results.len() - 1] is Ok);
                }
            }
        }
        let parcel = kindle::SendInput { articles: articles_with_content };
        let sent = self.kindle_repository.send(parcel);
        match sent {
            Ok(_) => Ok(SendOutput {  }),
            Err(e) => Err(e),
        }
    }
}

} // verus!
