//! The rule store: fixed tables of lower-case URL fragments, matched against the
//! case-folded URL.
//!
//! Every table is one `const` string of entries separated by spaces, so the same
//! value is read by the matcher at run time and by the contracts that describe it,
//! and a table could as well be loaded from a text file. Within a table the order of
//! entries does not matter; they are kept sorted.

use vstd::prelude::*;

verus! {

/// Hosts that are always let through: sign-in, fonts, maps, translation.
pub const WHITELIST: &'static str = "\
    accounts.google.com ajax.googleapis.com fonts.googleapis.com fonts.gstatic.com \
    maps.googleapis.com translate.googleapis.com";

/// Google ad and analytics hosts. The network layer never blocks them: their
/// consumers check the integrity of what they load, so they are left to in-page shielding.
pub const EXCEPTION_DOMAINS: &'static str = "\
    2mdn.net adservice.google. doubleclick.net fundingchoicesmessages.google.com \
    google-analytics.com googleadservices.com googlesyndication.com googletagmanager.com \
    googletagservices.com imasdk.googleapis.com jnn-pa.googleapis.com \
    pagead2.googlesyndication.com tpc.googlesyndication.com www.googletagmanager.com";

/// An entry of a blocklist that holds one of these fragments overlaps the exception
/// hosts and is never used for blocking.
pub const EXCLUDED_FRAGMENTS: &'static str = "\
    2mdn adservice.google doubleclick fundingchoices google-analytics googleadservices \
    googlesyndication googletagmanager googletagservices imasdk jnn-pa";

/// Advertising networks.
pub const AD_NETWORKS: &'static str = "\
    2mdn.net 33across.com aan.amazon.com aax-eu.amazon-adsystem.com \
    aax-us-east.amazon-adsystem.com aax-us-west.amazon-adsystem.com \
    aax.amazon-adsystem.com ad.doubleclick.net adblade.com adform.net admaven.com \
    adnxs.com adroll.com adsafeprotected.com adservice.google. adservice.google.com \
    adsrvr.org adsterra.com adtech.de adtechus.com advertising.com airpush.com \
    amazon-adsystem.com amplify.outbrain.com an.facebook.com applovin.com assoc-amazon.com \
    atdmt.com bidder.criteo.com bidswitch.net bluekai.com bwp.download cas.criteo.com \
    casalemedia.com cdn.taboola.com chartboost.com clickadu.com connatix.com \
    connect.facebook.net/en_us/fbevents.js content.ad contextweb.com conversantmedia.com \
    criteo.com criteo.net dotomi.com doubleclick.net everesttech.net exoclick.com \
    exponential.com eyeblaster.com flashtalking.com fundingchoicesmessages.google.com \
    fwmrm.net fyber.com gmossp-sp.jp google-analytics.com googleads.g.doubleclick.net \
    googleads4.g.doubleclick.net googleadservices.com googlesyndication.com \
    googletagmanager.com googletagservices.com gum.criteo.com gumgum.com hilltopads.net \
    ib-ibi.com images.taboola.com imasdk.googleapis.com indexexchange.com inmobi.com \
    innovid.com ipredictive.com ironsrc.com jivox.com jnn-pa.googleapis.com juicyads.com \
    kargo.com leadbolt.com liadm.com lijit.com liveintent.com log.outbrain.com \
    m.doubleclick.net marketo.net mathtag.com media.net medianet.com mediavine.com \
    mediavisor.doubleclick.net mgid.com mintegral.com moatads.com mookie1.com nativo.com \
    npttech.com nr.taboola.com omnitagjs.com onesignal.com openx.net outbrain.com \
    pagead.l.doubleclick.net pagead2.googlesyndication.com perfectmarket.com \
    petametrics.com pixel.facebook.com popads.net popcash.net pro-market.net \
    propellerads.com pubmatic.com pushpush.net pushwoosh.com quantcast.com revcontent.com \
    revjet.com rhythmone.com richpush.co rlcdn.com rqtrk.eu rubiconproject.com s0.2mdn.net \
    sailthru.com securepubads.g.doubleclick.net serving-sys.com sharethrough.com \
    smaato.com smaato.net smartadserver.com sovrn.com spotxchange.com sslwidget.criteo.com \
    startapp.com static.criteo.net static.doubleclick.net stickyadstv.com switch.com \
    synacor.com taboola.com teads.tv tidaltv.com tpc.googlesyndication.com \
    trafficjunky.com trc.taboola.com tremorhub.com tribalfusion.com turn.com undertone.com \
    unity3d.com/ads unrulymedia.com valueclickmedia.com vidible.tv vungle.com \
    widgets.outbrain.com www-googletagmanager.l.google.com www.facebook.com/tr \
    www.googleadservices.com yieldmo.com yieldoptimizer.com zedo.com zemanta.com \
    zergnet.com";

/// Analytics and tracking services.
pub const TRACKING: &'static str = "\
    alexametrics.com amplitude.com analytics.google.com analytics.yahoo.com \
    api-js.mixpanel.com api.amplitude.com api.segment.io b.scorecardresearch.com \
    bam.nr-data.net bat.bing.com bidswitch.net bounceexchange.com brealtime.com \
    browser.sentry-cdn.com bugsnag.com c.bing.com cdn.amplitude.com cdn.heapanalytics.com \
    cdn.krxd.net cdn.logrocket.io cdn.mouseflow.com cdn.mxpnl.com cdn.optimizely.com \
    cdn.segment.com chartbeat.com clarity.ms clicktale.net comscore.com contentsquare.net \
    conv.indeed.com coremetrics.com crazyegg.com crwdcntrl.net d.turn.com \
    d2wy8f7a9ursnm.cloudfront.net dc.ads.linkedin.com demdex.net dpm.demdex.net \
    ds.serving-sys.com e.liadm.com effectivemeasure.net exelator.com eyeota.net \
    fullstory.com go.pardot.com heapanalytics.com hm.baidu.com hotjar.com id5-sync.com \
    idsync.rlcdn.com iperceptions.com js-agent.newrelic.com kissmetrics.com krxd.net \
    livefyre.com logrocket.com logx.optimizely.com lpsnmedia.net marchex.io \
    marin.clearfit.com marketo.com matheranalytics.com mautic.com metric.gstatic.com \
    mixpanel.com ml314.com mouseflow.com mplxtms.com msecnd.net myvisualiq.net \
    navigator-lbs.navdmp.com newrelic.com npttech.com nr-data.net omtrdc.net \
    onetag-sys.com optimizely.com owneriq.net pardot.com parsely.com pi.pardot.com \
    pippio.com pixel.quantserve.com postrelease.com pr-bh.ybp.yahoo.com pubmine.com \
    px.spiceworks.com qualtrics.com quantcount.com quantserve.com rfihub.com rkdms.com \
    rollbar.com rs.fullstory.com s.amazon-adsystem.com sb.scorecardresearch.com \
    sb.voicefive.com sc.omtrdc.net scorecardresearch.com script.crazyegg.com \
    script.hotjar.com segment.com segment.io sentry-cdn.com sentry.io \
    srv.pixel.parsely.com stat.aldi.us static.chartbeat.com static.hotjar.com \
    stats.g.doubleclick.net stochasticgeo.com survey.g.doubleclick.net tag.demandbase.com \
    tags.bkrtx.com tags.bluekai.com tags.tiqcdn.com targeting.api.drift.com tealiumiq.com \
    tk.kargo.com tlx.3lift.com tr.snapchat.com trackjs.com trk.pinterest.com tt.onthe.io \
    us-u.openx.net usabilla.com visitor-service.tealiumiq.com w55c.net \
    widgets.pinterest.com wt-eu02.net x.bidswitch.net yieldlab.net zeotap.com zqtk.net";

/// Tracking endpoints of social networks.
pub const SOCIAL_TRACKING: &'static str = "\
    ad.snooper.reddit.com ads-api.twitter.com ads-twitter.com ads.reddit.com \
    ads.tiktok.com alb.reddit.com analytics-sg.tiktok.com analytics.tiktok.com \
    analytics.twitter.com ct.pinterest.com d.reddit.com events.reddit.com \
    log.pinterest.com pixel.facebook.com rereddit.com snap.licdn.com \
    static.ads-twitter.com t.co/i/adsct widgets.pinterest.com www.redditstatic.com/ads";

/// Link shorteners with ad walls, scam and crypto-mining hosts.
pub const MALWARE: &'static str = "\
    2giga.link a-ads.com adcash.com adf.ly adk2.co authedmine.com bc.vc clicksor.com \
    coin-hive.com coinad.com coinhive.com cpmlink.net cryptoloot.pro directrev.com exe.io \
    jmp.click jsecoin.com linkbucks.com linkshrink.net megaurl.in minero.cc ouo.io \
    ouo.press popunder.net redirect.viglink.com sh.st shorte.st skimresources.com \
    viglink.com wigetmedia.com xyzads.com";

/// Pop-up, pop-under and push-notification networks.
pub const POPUPS: &'static str = "\
    gravitec.net izooto.com popads.net popcash.net popmyads.com popunderjs.com \
    popuptraffic.com propellerads.com push.express pushame.com pushassist.com \
    pushengage.com pushpush.net richpush.co sendpulse.com subscribers.com";

/// Trackers that hide behind first-party CNAME records.
pub const CNAME_CLOAKS: &'static str = "\
    adobedc.net at-o.net bounceexchange.com brealtime.com c.evidon.com dnsdelegation.io \
    eulerian.net go-mpulse.net mplxtms.com omtrdc.net pardot.com webcontentassessor.com";

/// URL fragments typical of ad and tracking endpoints, on any host.
pub const GENERIC_PATTERNS: &'static str = "\
    /__utm.gif /aclk? /ad-iframe /ad-script /ad_banner /ad_frame /adchoices /admanager \
    /adrequest /adsapi /adsense /adserver /adunit /adview /analytics.js /beacon.gif \
    /beacon.js /collect?v= /conversion/ /gtag/js /pageview? /pcs/view /pixel.gif \
    /pixel.png /sponsor/ /tracker.php /tracking.js ad_click click.php?ad smartad \
    sponsoredlink";

} // verus!
